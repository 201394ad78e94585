//! The load test of the RAG server: which endpoints it exercises, with what
//! weights, in which order when the order is enforced, and when it moves on
//! to another variation of its test files.
use vstd::prelude::*;
use crate::text::{append_str, decimal, from_chars, parse_usize, push_decimal, str_eq, to_chars, usize_text_value};

verus! {

/// The endpoints a load test exercises; `All` stands for every one.
#[derive(Debug, Clone, Copy, PartialEq, Eq, Structural)]
pub enum TestType {
    Health,
    Hello,
    Index,
    Chat,
    Upload,
    Delete,
    Embed,
    Ask,
    Retrieve,
    Rerank,
    All,
}

/// The order the endpoints run in when all run in order.
pub open spec fn all_order_spec() -> Seq<TestType> {
    seq![TestType::Health, TestType::Hello, TestType::Upload, TestType::Index, TestType::Retrieve,
        TestType::Ask, TestType::Chat, TestType::Delete, TestType::Embed, TestType::Rerank]
}

/// What `str::to_lowercase` gives for a text.
pub uninterp spec fn lowercase(s: Seq<char>) -> Seq<char>;

/// `s.to_lowercase()`; named by `lowercase`.
#[verifier::external_body]
fn to_lowercase(s: &str) -> (r: String)
    ensures
        r@ == lowercase(s@),
{
    s.to_lowercase()
}

/// The test type a lower-case name stands for.
pub open spec fn test_type_named(name: Seq<char>) -> Option<TestType> {
    if name == "health"@ {
        Some(TestType::Health)
    } else if name == "hello"@ {
        Some(TestType::Hello)
    } else if name == "index"@ {
        Some(TestType::Index)
    } else if name == "chat"@ {
        Some(TestType::Chat)
    } else if name == "upload"@ {
        Some(TestType::Upload)
    } else if name == "delete"@ {
        Some(TestType::Delete)
    } else if name == "embed"@ {
        Some(TestType::Embed)
    } else if name == "ask"@ {
        Some(TestType::Ask)
    } else if name == "retrieve"@ {
        Some(TestType::Retrieve)
    } else if name == "rerank"@ {
        Some(TestType::Rerank)
    } else if name == "all"@ {
        Some(TestType::All)
    } else {
        None
    }
}

impl TestType {
    /// Every endpoint, in the order they run when all run in order.
    pub fn all_order() -> (v: Vec<TestType>)
        ensures
            v@ == all_order_spec(),
    {
        let v = vec![TestType::Health, TestType::Hello, TestType::Upload, TestType::Index, TestType::Retrieve,
            TestType::Ask, TestType::Chat, TestType::Delete, TestType::Embed, TestType::Rerank];
        assert(v@ =~= all_order_spec());
        v
    }

    /// The test type a name stands for, in any case.
    pub fn from_str(s: &str) -> (r: Result<TestType, String>)
        ensures
            match test_type_named(lowercase(s@)) {
                Some(t) => r == Ok::<TestType, String>(t),
                None => r matches Err(m) && m@ == "Unknown test type: "@ + s@,
            },
    {
        let l = to_lowercase(s);
        let n = l.as_str();
        if str_eq(n, "health") {
            Ok(TestType::Health)
        } else if str_eq(n, "hello") {
            Ok(TestType::Hello)
        } else if str_eq(n, "index") {
            Ok(TestType::Index)
        } else if str_eq(n, "chat") {
            Ok(TestType::Chat)
        } else if str_eq(n, "upload") {
            Ok(TestType::Upload)
        } else if str_eq(n, "delete") {
            Ok(TestType::Delete)
        } else if str_eq(n, "embed") {
            Ok(TestType::Embed)
        } else if str_eq(n, "ask") {
            Ok(TestType::Ask)
        } else if str_eq(n, "retrieve") {
            Ok(TestType::Retrieve)
        } else if str_eq(n, "rerank") {
            Ok(TestType::Rerank)
        } else if str_eq(n, "all") {
            Ok(TestType::All)
        } else {
            let mut m: Vec<char> = Vec::new();
            append_str(&mut m, "Unknown test type: ");
            append_str(&mut m, s);
            Err(from_chars(&m))
        }
    }
}

/// An endpoint with the weight of its share of the requests.
#[derive(Debug, Clone, Copy, PartialEq, Eq)]
pub struct WeightedEndpoint {
    pub endpoint: TestType,
    pub weight: usize,
}

/// The pieces of `s` between its colons, as `str::split(':')` gives them.
pub open spec fn colon_pieces(s: Seq<char>) -> Seq<Seq<char>>
    decreases s.len(),
{
    if s.len() == 0 {
        seq![Seq::empty()]
    } else {
        let pre = colon_pieces(s.drop_last());
        if s.last() == ':' {
            pre.push(Seq::empty())
        } else {
            pre.update(pre.len() - 1, pre.last().push(s.last()))
        }
    }
}

/// `colon_pieces` always has at least one piece.
proof fn lemma_pieces_nonempty(s: Seq<char>)
    ensures
        colon_pieces(s).len() >= 1,
    decreases s.len(),
{
    if s.len() > 0 {
        lemma_pieces_nonempty(s.drop_last());
    }
}

/// The pieces of `s` between its colons.
fn split_colons(s: &str) -> (r: Vec<String>)
    ensures
        r@.map_values(|p: String| p@) == colon_pieces(s@),
{
    let cs = to_chars(s);
    let mut pieces: Vec<String> = Vec::new();
    let mut cur: Vec<char> = Vec::new();
    let mut i: usize = 0;
    while i < cs.len()
        invariant
            i <= cs.len(),
            pieces@.map_values(|p: String| p@).push(cur@) == colon_pieces(cs@.subrange(0, i as int)),
        decreases cs.len() - i,
    {
        proof {
            let s1 = cs@.subrange(0, i + 1);
            assert(s1.drop_last() =~= cs@.subrange(0, i as int));
            assert(s1.last() == cs@[i as int]);
            lemma_pieces_nonempty(cs@.subrange(0, i as int));
        }
        let ghost before = pieces@.map_values(|p: String| p@);
        if cs[i] == ':' {
            pieces.push(from_chars(&cur));
            cur = Vec::new();
            assert(pieces@.map_values(|p: String| p@) =~= before.push(old_cur_view(cs@, i as int, before)));
        } else {
            cur.push(cs[i]);
            assert(before.push(cur@) =~= before.push(cur@.drop_last()).update(before.len() as int, cur@));
        }
        i = i + 1;
    }
    assert(cs@.subrange(0, cs.len() as int) =~= cs@);
    let ghost before = pieces@.map_values(|p: String| p@);
    pieces.push(from_chars(&cur));
    assert(pieces@.map_values(|p: String| p@) =~= before.push(cur@));
    pieces
}

/// The current piece just before a colon at `i`.
spec fn old_cur_view(cs: Seq<char>, i: int, before: Seq<Seq<char>>) -> Seq<char> {
    colon_pieces(cs.subrange(0, i)).last()
}

impl WeightedEndpoint {
    /// Reads `endpoint` or `endpoint:weight`; the weight is 1 unless given.
    pub fn from_str(s: &str) -> (r: Result<WeightedEndpoint, String>)
        ensures
            ({
                let ps = colon_pieces(s@);
                if ps.len() == 2 {
                    match (test_type_named(lowercase(ps[0])), usize_text_value(ps[1])) {
                        (None, _) => r matches Err(m) && m@ == "Invalid endpoint: "@ + ps[0],
                        (Some(_), None) => r matches Err(m) && m@ == "Invalid weight: "@ + ps[1],
                        (Some(t), Some(w)) => r == Ok::<WeightedEndpoint, String>(
                            WeightedEndpoint { endpoint: t, weight: w }),
                    }
                } else if ps.len() == 1 {
                    match test_type_named(lowercase(ps[0])) {
                        None => r matches Err(m) && m@ == "Invalid endpoint: "@ + ps[0],
                        Some(t) => r == Ok::<WeightedEndpoint, String>(WeightedEndpoint { endpoint: t, weight: 1 }),
                    }
                } else {
                    r matches Err(m) && m@ == "Invalid format: "@ + s@
                }
            }),
    {
        let parts = split_colons(s);
        proof {
            assert(parts@.map_values(|p: String| p@).len() == parts.len());
        }
        if parts.len() == 2 {
            assert(parts@[0]@ == colon_pieces(s@)[0] && parts@[1]@ == colon_pieces(s@)[1]);
            let endpoint = match TestType::from_str(parts[0].as_str()) {
                Ok(t) => t,
                Err(_) => {
                    let mut m: Vec<char> = Vec::new();
                    append_str(&mut m, "Invalid endpoint: ");
                    append_str(&mut m, parts[0].as_str());
                    return Err(from_chars(&m));
                },
            };
            let weight = match parse_usize(parts[1].as_str()) {
                Some(w) => w,
                None => {
                    let mut m: Vec<char> = Vec::new();
                    append_str(&mut m, "Invalid weight: ");
                    append_str(&mut m, parts[1].as_str());
                    return Err(from_chars(&m));
                },
            };
            Ok(WeightedEndpoint { endpoint, weight })
        } else if parts.len() == 1 {
            assert(parts@[0]@ == colon_pieces(s@)[0]);
            match TestType::from_str(parts[0].as_str()) {
                Ok(t) => Ok(WeightedEndpoint { endpoint: t, weight: 1 }),
                Err(_) => {
                    let mut m: Vec<char> = Vec::new();
                    append_str(&mut m, "Invalid endpoint: ");
                    append_str(&mut m, parts[0].as_str());
                    Err(from_chars(&m))
                },
            }
        } else {
            let mut m: Vec<char> = Vec::new();
            append_str(&mut m, "Invalid format: ");
            append_str(&mut m, s);
            Err(from_chars(&m))
        }
    }
}

/// Whether an endpoint is among the weighted ones.
pub fn contains_endpoint(endpoints: &Vec<WeightedEndpoint>, target: TestType) -> (b: bool)
    ensures
        b == exists|i: int| 0 <= i < endpoints.len() && (#[trigger] endpoints@[i]).endpoint == target,
{
    let mut i: usize = 0;
    while i < endpoints.len()
        invariant
            i <= endpoints.len(),
            forall|j: int| 0 <= j < i ==> (#[trigger] endpoints@[j]).endpoint != target,
        decreases endpoints.len() - i,
    {
        if endpoints[i].endpoint == target {
            return true;
        }
        i = i + 1;
    }
    false
}

/// Checks the endpoints asked for: `all` must come alone.
pub fn check_endpoints(endpoints: &Vec<WeightedEndpoint>) -> (r: Result<(), String>)
    ensures
        r is Err <==> (endpoints.len() > 1
            && exists|i: int| 0 <= i < endpoints.len() && (#[trigger] endpoints@[i]).endpoint == TestType::All),
        r matches Err(m) ==> m@ == "\"all\" endpoint should be used alone"@,
{
    if contains_endpoint(endpoints, TestType::All) && endpoints.len() > 1 {
        Err("\"all\" endpoint should be used alone".to_owned())
    } else {
        Ok(())
    }
}

/// The order endpoints run in when enforced, and which one is next.
#[derive(Debug, Clone)]
pub struct OrderingState {
    current_index: usize,
    endpoint_order: Vec<TestType>,
}

impl OrderingState {
    /// The order; empty when not enforced.
    pub closed spec fn order(&self) -> Seq<TestType> {
        self.endpoint_order@
    }

    /// The position of the endpoint that runs next.
    pub closed spec fn current(&self) -> nat {
        self.current_index as nat
    }

    pub closed spec fn wf(&self) -> bool {
        self.endpoint_order.len() > 0 ==> self.current_index < self.endpoint_order.len()
    }

    /// No order enforced.
    pub fn new() -> (s: Self)
        ensures
            s.wf(),
            s.order().len() == 0,
            s.current() == 0,
    {
        OrderingState { current_index: 0, endpoint_order: Vec::new() }
    }

    /// The order for the endpoints asked for: every endpoint when `all` is
    /// asked for alone, else the endpoints as given.
    pub fn for_endpoints(endpoints: &Vec<WeightedEndpoint>) -> (s: Self)
        ensures
            s.wf(),
            s.current() == 0,
            endpoints.len() == 1 && endpoints@[0].endpoint == TestType::All ==> s.order() == all_order_spec(),
            !(endpoints.len() == 1 && endpoints@[0].endpoint == TestType::All)
                ==> s.order() == endpoints@.map_values(|w: WeightedEndpoint| w.endpoint),
    {
        if endpoints.len() == 1 && endpoints[0].endpoint == TestType::All {
            return OrderingState { current_index: 0, endpoint_order: TestType::all_order() };
        }
        let mut order: Vec<TestType> = Vec::new();
        let mut i: usize = 0;
        while i < endpoints.len()
            invariant
                i <= endpoints.len(),
                order@ == endpoints@.subrange(0, i as int).map_values(|w: WeightedEndpoint| w.endpoint),
            decreases endpoints.len() - i,
        {
            order.push(endpoints[i].endpoint);
            assert(endpoints@.subrange(0, i + 1).map_values(|w: WeightedEndpoint| w.endpoint)
                =~= endpoints@.subrange(0, i as int).map_values(|w: WeightedEndpoint| w.endpoint).push(
                endpoints@[i as int].endpoint));
            i = i + 1;
        }
        assert(endpoints@.subrange(0, endpoints.len() as int) =~= endpoints@);
        OrderingState { current_index: 0, endpoint_order: order }
    }

    /// Whether an endpoint runs now: always when no order is enforced, else
    /// when it is the one whose turn it is.
    pub fn should_execute(&self, endpoint: TestType) -> (b: bool)
        requires
            self.wf(),
        ensures
            b == (self.order().len() == 0 || self.order()[self.current() as int] == endpoint),
    {
        if self.endpoint_order.len() == 0 {
            return true;
        }
        self.endpoint_order[self.current_index] == endpoint
    }

    /// Passes the turn to the next endpoint, from the last back to the first.
    pub fn advance(&mut self)
        requires
            old(self).wf(),
        ensures
            final(self).wf(),
            final(self).order() == old(self).order(),
            old(self).order().len() > 0 ==> final(self).current() == (old(self).current() + 1) % (old(self).order().len() as nat),
            old(self).order().len() == 0 ==> final(self).current() == old(self).current(),
    {
        if self.endpoint_order.len() > 0 {
            self.current_index = (self.current_index + 1) % self.endpoint_order.len();
        }
    }
}

/// With an order enforced, the endpoints take their turns in that order and
/// start over after the last: after `k` turns from the first, it is the turn
/// of the endpoint at `k` modulo the order's length.
pub proof fn lemma_turns_cycle(len: nat, k: nat)
    requires
        len > 0,
    ensures
        turn_after(len, k) == k % len,
    decreases k,
{
    if k > 0 {
        lemma_turns_cycle(len, (k - 1) as nat);
        assert(turn_after(len, k) == (turn_after(len, (k - 1) as nat) + 1) % len);
        assert(((k - 1) as nat % len + 1) % len == k % len) by (nonlinear_arith)
            requires
                len > 0,
                k > 0,
        {
            vstd::arithmetic::div_mod::lemma_add_mod_noop((k - 1) as int, 1, len as int);
        }
    } else {
        vstd::arithmetic::div_mod::lemma_small_mod(0, len);
    }
}

/// The position whose turn it is after `k` turns from the first.
pub open spec fn turn_after(len: nat, k: nat) -> nat
    decreases k,
{
    if k == 0 {
        0
    } else {
        (turn_after(len, (k - 1) as nat) + 1) % len
    }
}

/// The variation of the test files that requests use.
#[derive(Debug, Clone)]
pub struct TestVariation {
    pub index: usize,
    pub file_path: String,
}

/// Whether an endpoint's request starts a new variation: always without an
/// enforced order, else when it is the first endpoint of the order and its
/// turn has come.
pub fn starts_new_variation(ordering: &OrderingState, endpoint: TestType) -> (b: bool)
    requires
        ordering.wf(),
    ensures
        b == (ordering.order().len() == 0
            || (ordering.order()[0] == endpoint && ordering.order()[ordering.current() as int] == endpoint)),
{
    if ordering.endpoint_order.len() == 0 {
        return true;
    }
    ordering.endpoint_order[0] == endpoint && ordering.should_execute(endpoint)
}

impl TestVariation {
    /// The first variation.
    pub fn new() -> (v: Self)
        ensures
            v.index == 0,
            v.file_path@.len() == 0,
    {
        TestVariation { index: 0, file_path: String::new() }
    }

    /// Moves to the next of `variations` variations, with a new test file.
    pub fn next(&mut self, variations: usize, file_path: String)
        requires
            variations > 0,
            old(self).index < usize::MAX,
        ensures
            final(self).index == (old(self).index + 1) % (variations as int),
            final(self).file_path == file_path,
    {
        self.index = (self.index + 1) % variations;
        self.file_path = file_path;
    }
}


/// The bytes of a text, one per character (the texts here are ASCII).
pub open spec fn ascii_bytes(s: Seq<char>) -> Seq<u8> {
    s.map_values(|c: char| c as u8)
}

/// Appends a text's characters as bytes.
fn push_ascii(out: &mut Vec<u8>, s: &Vec<char>)
    ensures
        final(out)@ == old(out)@ + ascii_bytes(s@),
{
    let ghost start = out@;
    let mut i: usize = 0;
    while i < s.len()
        invariant
            i <= s.len(),
            out@ == start + ascii_bytes(s@.subrange(0, i as int)),
        decreases s.len() - i,
    {
        let ghost before = out@;
        out.push(s[i] as u8);
        assert(ascii_bytes(s@.subrange(0, i + 1)) =~= ascii_bytes(s@.subrange(0, i as int)).push(s@[i as int] as u8));
        assert(out@ =~= start + ascii_bytes(s@.subrange(0, i + 1)));
        i = i + 1;
    }
    assert(s@.subrange(0, s.len() as int) =~= s@);
}

/// The boundary of the upload requests' multipart bodies.
pub open spec fn upload_boundary() -> Seq<char> {
    "----WebKitFormBoundaryABC123"@
}

/// The name a variation's upload is stored under.
pub open spec fn upload_file_name(index: nat) -> Seq<char> {
    "uploads/stress_tests/"@ + decimal(index) + ".md"@
}

/// The multipart body of an upload: the file part (the file's bytes under
/// the variation's name), the metadata part (a JSON object whose `path` is
/// that name), and the closing boundary.
pub open spec fn upload_body(index: nat, file: Seq<u8>) -> Seq<u8> {
    let name = upload_file_name(index);
    ascii_bytes(
        "--"@ + upload_boundary() + "\r\nContent-Disposition: form-data; name=\"file\"; filename=\""@ + name
            + "\"\r\nContent-Type: text/plain\r\n\r\n"@,
    ) + file + ascii_bytes("\r\n"@) + ascii_bytes(
        "--"@ + upload_boundary()
            + "\r\nContent-Disposition: form-data; name=\"metadata\"\r\nContent-Type: application/json\r\n\r\n{\"path\":\""@
            + name + "\"}\r\n"@,
    ) + ascii_bytes("--"@ + upload_boundary() + "--\r\n"@)
}

/// The body of the upload request of a variation, carrying a test file's
/// bytes.
pub fn upload_form(index: usize, file: &Vec<u8>) -> (body: Vec<u8>)
    ensures
        body@ == upload_body(index as nat, file@),
{
    let mut name: Vec<char> = Vec::new();
    append_str(&mut name, "uploads/stress_tests/");
    push_decimal(&mut name, index as u64);
    append_str(&mut name, ".md");
    assert(name@ =~= upload_file_name(index as nat));
    let mut part: Vec<char> = Vec::new();
    append_str(&mut part, "--");
    append_str(&mut part, "----WebKitFormBoundaryABC123");
    append_str(&mut part, "\r\nContent-Disposition: form-data; name=\"file\"; filename=\"");
    crate::text::append_chars(&mut part, &name);
    append_str(&mut part, "\"\r\nContent-Type: text/plain\r\n\r\n");
    let mut body: Vec<u8> = Vec::new();
    push_ascii(&mut body, &part);
    let mut i: usize = 0;
    let ghost head = body@;
    while i < file.len()
        invariant
            i <= file.len(),
            body@ == head + file@.subrange(0, i as int),
        decreases file.len() - i,
    {
        body.push(file[i]);
        assert(body@ =~= head + file@.subrange(0, i + 1));
        i = i + 1;
    }
    assert(file@.subrange(0, file.len() as int) =~= file@);
    let crlf = to_chars("\r\n");
    push_ascii(&mut body, &crlf);
    let mut meta: Vec<char> = Vec::new();
    append_str(&mut meta, "--");
    append_str(&mut meta, "----WebKitFormBoundaryABC123");
    append_str(&mut meta, "\r\nContent-Disposition: form-data; name=\"metadata\"\r\nContent-Type: application/json\r\n\r\n{\"path\":\"");
    crate::text::append_chars(&mut meta, &name);
    append_str(&mut meta, "\"}\r\n");
    push_ascii(&mut body, &meta);
    let mut end: Vec<char> = Vec::new();
    append_str(&mut end, "--");
    append_str(&mut end, "----WebKitFormBoundaryABC123");
    append_str(&mut end, "--\r\n");
    push_ascii(&mut body, &end);
    proof {
        let name_s = upload_file_name(index as nat);
        assert(part@ =~= "--"@ + upload_boundary() + "\r\nContent-Disposition: form-data; name=\"file\"; filename=\""@
            + name_s + "\"\r\nContent-Type: text/plain\r\n\r\n"@);
        assert(meta@ =~= "--"@ + upload_boundary()
            + "\r\nContent-Disposition: form-data; name=\"metadata\"\r\nContent-Type: application/json\r\n\r\n{\"path\":\""@
            + name_s + "\"}\r\n"@);
        assert(end@ =~= "--"@ + upload_boundary() + "--\r\n"@);
    }
    assert(body@ =~= upload_body(index as nat, file@));
    body
}

/// The content type of the upload requests.
pub fn upload_content_type() -> (s: String)
    ensures
        s@ == "multipart/form-data; boundary="@ + upload_boundary(),
{
    let mut out: Vec<char> = Vec::new();
    append_str(&mut out, "multipart/form-data; boundary=");
    append_str(&mut out, "----WebKitFormBoundaryABC123");
    from_chars(&out)
}

/// The failure recorded for a request answered with an error status:
/// the request's name in lowercase, the status and the answer's body.
pub fn request_failure(name: &str, status: &str, body: &str) -> (s: String)
    ensures
        s@ == lowercase(name@) + " request failed with status "@ + status@ + ": "@ + body@,
{
    let lower = to_lowercase(name);
    let mut out: Vec<char> = Vec::new();
    append_str(&mut out, lower.as_str());
    append_str(&mut out, " request failed with status ");
    append_str(&mut out, status);
    append_str(&mut out, ": ");
    append_str(&mut out, body);
    from_chars(&out)
}

} // verus!
