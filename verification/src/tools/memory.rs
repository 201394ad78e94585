//! A tool that stores JSON values under string keys: store, retrieve, list,
//! delete and clear.
use vstd::prelude::*;
use crate::json::{json_pretty, json_quote, json_string_literal, pretty_json};
use crate::registry::Registry;
use crate::schema::{tool_text_result, CallToolResult, Tool};
use crate::text::{append_str, from_chars, join};
use crate::tools::ToolError;

verus! {

/// The input schema of the memory tool.
pub const MEMORY_SCHEMA: &'static str = "{
    \"type\": \"object\",
    \"properties\": {
        \"action\": {
            \"description\": \"The action to perform: 'store' to save a value, 'retrieve' to get a value, 'list' to see all keys, 'delete' to remove a key, or 'clear' to remove all keys\",
            \"type\": \"string\",
            \"enum\": [\"store\", \"retrieve\", \"list\", \"delete\", \"clear\"]
        },
        \"key\": {
            \"description\": \"The key to store/retrieve/delete the memory under (not required for list/clear)\",
            \"type\": \"string\"
        },
        \"value\": {
            \"description\": \"The JSON object to store (only required for store action)\",
            \"type\": \"object\"
        }
    },
    \"required\": [\"action\"]
}";

/// What a call of the memory tool does.
#[derive(Debug, Clone, Copy, PartialEq, Eq, Structural)]
pub enum MemoryAction {
    Store,
    Retrieve,
    List,
    Delete,
    Clear,
}

/// The arguments of the memory tool; the value is JSON text.
#[derive(Debug, Clone)]
pub struct MemoryArgs {
    pub action: MemoryAction,
    pub key: Option<String>,
    pub value: Option<String>,
}

/// The view of an optional string.
pub open spec fn opt_seq(o: Option<String>) -> Option<Seq<char>> {
    match o {
        Some(s) => Some(s@),
        None => None,
    }
}

/// The keys as a compact JSON array of strings.
pub open spec fn string_array_text(keys: Seq<Seq<char>>) -> Seq<char> {
    seq!['['] + join(keys.map_values(|k: Seq<char>| json_string_literal(k)), seq![',']) + seq![']']
}

/// The state after a call and the reply: its text and whether it is an
/// error, or `None` when the value to retrieve does not render as JSON.
pub open spec fn memory_call(
    keys: Seq<Seq<char>>,
    m: Map<Seq<char>, Seq<char>>,
    action: MemoryAction,
    key: Option<Seq<char>>,
    value: Option<Seq<char>>,
) -> (Seq<Seq<char>>, Map<Seq<char>, Seq<char>>, Option<(Seq<char>, bool)>) {
    match action {
        MemoryAction::Store => match (key, value) {
            (None, _) => (keys, m, Some(("Key is required for store action"@, true))),
            (Some(_), None) => (keys, m, Some(("Value is required for store action"@, true))),
            (Some(k), Some(v)) => (
                if m.contains_key(k) { keys } else { keys.push(k) },
                m.insert(k, v),
                Some(("Successfully stored memory with key: "@ + k, false)),
            ),
        },
        MemoryAction::Retrieve => match key {
            None => (keys, m, Some(("Key is required for retrieve action"@, true))),
            Some(k) => if m.contains_key(k) {
                match json_pretty(m[k]) {
                    Some(p) => (keys, m, Some((p, false))),
                    None => (keys, m, None),
                }
            } else {
                (keys, m, Some(("No memory found for key: "@ + k, false)))
            },
        },
        MemoryAction::List => match json_pretty(string_array_text(keys)) {
            Some(p) => (keys, m, Some((p, false))),
            None => (keys, m, Some(("Failed to serialize keys: not JSON"@, true))),
        },
        MemoryAction::Delete => match key {
            None => (keys, m, Some(("Key is required for delete action"@, true))),
            Some(k) => if m.contains_key(k) {
                (keys.remove(keys.index_of(k)), m.remove(k),
                    Some(("Successfully deleted memory with key: "@ + k, false)))
            } else {
                (keys, m, Some(("No memory found to delete for key: "@ + k, false)))
            },
        },
        MemoryAction::Clear => (Seq::empty(), Map::empty(), Some(("Successfully cleared all memories"@, false))),
    }
}

/// Stores and retrieves JSON memories using string keys.
pub struct Memory {
    store: Registry<String, String>,
}

impl Memory {
    /// The stored keys, in the order they were first stored.
    pub closed spec fn keys(&self) -> Seq<Seq<char>> {
        self.store.keys()
    }

    /// The stored values (JSON text) by key.
    pub closed spec fn entries(&self) -> Map<Seq<char>, Seq<char>> {
        self.store.map().map_values(|v: String| v@)
    }

    /// The keys are distinct and are exactly the stored ones.
    pub closed spec fn wf(&self) -> bool {
        &&& self.store.wf()
        &&& forall|k: Seq<char>| #[trigger] self.store.map().contains_key(k) <==> self.keys().contains(k)
    }

    /// In a well-formed memory the listed keys are distinct and are exactly
    /// the keys that hold a value.
    pub proof fn lemma_keys_match(&self)
        requires
            self.wf(),
        ensures
            self.keys().no_duplicates(),
            forall|k: Seq<char>| #[trigger] self.entries().contains_key(k) <==> self.keys().contains(k),
    {
        self.store.lemma_keys_distinct();
        assert forall|k: Seq<char>| #[trigger] self.entries().contains_key(k) <==> self.keys().contains(k) by {
            assert(self.entries().contains_key(k) == self.store.map().contains_key(k));
        }
    }

    /// An empty memory.
    pub fn new() -> (r: Self)
        ensures
            r.wf(),
            r.keys() == Seq::<Seq<char>>::empty(),
            r.entries() == Map::<Seq<char>, Seq<char>>::empty(),
    {
        let r = Memory { store: Registry::new() };
        assert(r.entries() =~= Map::<Seq<char>, Seq<char>>::empty());
        r
    }

    /// The tool's definition.
    pub fn def() -> (t: Tool)
        ensures
            t.name@ == "memory"@,
            t.description matches Some(d) && d@ == "Store and retrieve JSON memories using string keys"@,
            t.input_schema@ == MEMORY_SCHEMA@,
    {
        Tool {
            name: "memory".to_owned(),
            description: Some("Store and retrieve JSON memories using string keys".to_owned()),
            input_schema: MEMORY_SCHEMA.to_owned(),
        }
    }

    /// The keys as a compact JSON array of strings.
    fn keys_json(&self) -> (s: String)
        requires
            self.wf(),
        ensures
            s@ == string_array_text(self.keys()),
    {
        let n = self.store.len();
        let mut out: Vec<char> = vec!['['];
        let ghost quoted = self.keys().map_values(|k: Seq<char>| json_string_literal(k));
        let mut i: usize = 0;
        while i < n
            invariant
                i <= n,
                n == self.keys().len(),
                quoted == self.keys().map_values(|k: Seq<char>| json_string_literal(k)),
                out@ == seq!['['] + join(quoted.subrange(0, i as int), seq![',']),
            decreases n - i,
        {
            let (k, _) = self.store.entry_at(i);
            if i > 0 {
                out.push(',');
            }
            let q = json_quote(k.as_str());
            append_str(&mut out, q.as_str());
            proof {
                let s1 = quoted.subrange(0, i + 1);
                assert(s1.drop_last() =~= quoted.subrange(0, i as int));
                assert(s1.last() == q@);
                if i == 0 {
                    assert(join(quoted.subrange(0, 0), seq![',']) =~= Seq::<char>::empty());
                    assert(out@ =~= seq!['['] + join(s1, seq![',']));
                } else {
                    assert(out@ =~= seq!['['] + join(s1, seq![',']));
                }
            }
            i = i + 1;
        }
        out.push(']');
        assert(quoted.subrange(0, n as int) =~= quoted);
        assert(out@ =~= string_array_text(self.keys()));
        from_chars(&out)
    }

    /// Runs one action: store a value under a key, retrieve it as pretty
    /// JSON, list the keys as a pretty JSON array, delete a key, or clear
    /// everything. A missing key or value is an error result; a value that
    /// does not render as JSON is a `ToolError`.
    pub fn call(&mut self, args: MemoryArgs) -> (r: Result<CallToolResult, ToolError>)
        requires
            old(self).wf(),
        ensures
            final(self).wf(),
            ({
                let (keys, m, reply) = memory_call(old(self).keys(), old(self).entries(), args.action,
                    opt_seq(args.key), opt_seq(args.value));
                &&& final(self).keys() == keys
                &&& final(self).entries() == m
                &&& match reply {
                    Some((text, is_error)) => r matches Ok(res) && res.content.len() == 1
                        && res.content@[0].text@ == text && res.content@[0].type_@ == "text"@
                        && res.is_error == Some(is_error),
                    None => r matches Err(ToolError::ResultSerialize(_)),
                }
            }),
    {
        let ghost old_keys = self.keys();
        let ghost old_m = self.entries();
        match args.action {
            MemoryAction::Store => {
                let key = match args.key {
                    Some(k) => k,
                    None => return Ok(tool_text_result("Key is required for store action".to_owned(), true)),
                };
                let value = match args.value {
                    Some(v) => v,
                    None => return Ok(tool_text_result("Value is required for store action".to_owned(), true)),
                };
                let mut msg: Vec<char> = Vec::new();
                append_str(&mut msg, "Successfully stored memory with key: ");
                append_str(&mut msg, key.as_str());
                let ghost kv = key@;
                let ghost vv = value@;
                let _ = self.store.insert(key, value);
                proof {
                    assert(self.entries() =~= old_m.insert(kv, vv));
                    assert forall|k: Seq<char>| #[trigger] self.store.map().contains_key(k)
                        <==> self.keys().contains(k) by {
                        if !old_keys.contains(kv) {
                            assert(self.keys() == old_keys.push(kv));
                            assert(self.keys()[old_keys.len() as int] == kv);
                            if old_keys.contains(k) {
                                let j = choose|j: int| 0 <= j < old_keys.len() && old_keys[j] == k;
                                assert(self.keys()[j] == k);
                            }
                        }
                    }
                }
                Ok(tool_text_result(from_chars(&msg), false))
            },
            MemoryAction::Retrieve => {
                let key = match args.key {
                    Some(k) => k,
                    None => return Ok(tool_text_result("Key is required for retrieve action".to_owned(), true)),
                };
                match self.store.get(&key) {
                    Some(value) => match pretty_json(value.as_str()) {
                        Some(p) => Ok(tool_text_result(p, false)),
                        None => Err(ToolError::ResultSerialize("stored value is not JSON".to_owned())),
                    },
                    None => {
                        let mut msg: Vec<char> = Vec::new();
                        append_str(&mut msg, "No memory found for key: ");
                        append_str(&mut msg, key.as_str());
                        Ok(tool_text_result(from_chars(&msg), false))
                    },
                }
            },
            MemoryAction::List => {
                let text = self.keys_json();
                match pretty_json(text.as_str()) {
                    Some(p) => Ok(tool_text_result(p, false)),
                    None => Ok(tool_text_result("Failed to serialize keys: not JSON".to_owned(), true)),
                }
            },
            MemoryAction::Delete => {
                let key = match args.key {
                    Some(k) => k,
                    None => return Ok(tool_text_result("Key is required for delete action".to_owned(), true)),
                };
                let mut msg: Vec<char> = Vec::new();
                let ghost kv = key@;
                let removed = self.store.remove(&key);
                proof {
                    assert(self.entries() =~= old_m.remove(kv));
                    if old_m.contains_key(kv) {
                        let p = old(self).store.position(kv);
                        assert(p == old_keys.index_of(kv));
                        assert(self.keys() == old_keys.remove(p));
                    }
                    assert forall|k: Seq<char>| #[trigger] self.store.map().contains_key(k)
                        <==> self.keys().contains(k) by {
                        if old_m.contains_key(kv) {
                            let p = old_keys.index_of(kv);
                            if self.keys().contains(k) {
                                let j = choose|j: int| 0 <= j < self.keys().len() && self.keys()[j] == k;
                                let j2 = if j < p { j } else { j + 1 };
                                assert(old_keys[j2] == k);
                            }
                        }
                    }
                }
                match removed {
                    Some(_) => {
                        append_str(&mut msg, "Successfully deleted memory with key: ");
                        append_str(&mut msg, key.as_str());
                        Ok(tool_text_result(from_chars(&msg), false))
                    },
                    None => {
                        append_str(&mut msg, "No memory found to delete for key: ");
                        append_str(&mut msg, key.as_str());
                        Ok(tool_text_result(from_chars(&msg), false))
                    },
                }
            },
            MemoryAction::Clear => {
                let _ = self.store.drain();
                assert(self.entries() =~= Map::<Seq<char>, Seq<char>>::empty());
                Ok(tool_text_result("Successfully cleared all memories".to_owned(), false))
            },
        }
    }
}

/// What is retrieved under a key is what was last stored under it,
/// pretty-printed.
pub proof fn lemma_retrieve_after_store(
    keys: Seq<Seq<char>>,
    m: Map<Seq<char>, Seq<char>>,
    k: Seq<char>,
    v: Seq<char>,
)
    ensures
        ({
            let (keys1, m1, _) = memory_call(keys, m, MemoryAction::Store, Some(k), Some(v));
            let (_, _, reply) = memory_call(keys1, m1, MemoryAction::Retrieve, Some(k), None);
            &&& m1.contains_key(k)
            &&& m1[k] == v
            &&& reply == match json_pretty(v) {
                Some(p) => Some((p, false)),
                None => None::<(Seq<char>, bool)>,
            }
        }),
{
}

/// After a delete nothing is stored under the key, and retrieving it
/// reports that no memory is found.
pub proof fn lemma_retrieve_after_delete(
    keys: Seq<Seq<char>>,
    m: Map<Seq<char>, Seq<char>>,
    k: Seq<char>,
)
    ensures
        ({
            let (keys1, m1, _) = memory_call(keys, m, MemoryAction::Delete, Some(k), None);
            let (_, _, reply) = memory_call(keys1, m1, MemoryAction::Retrieve, Some(k), None);
            &&& !m1.contains_key(k)
            &&& reply == Some(("No memory found for key: "@ + k, false))
        }),
{
}

/// After a clear no key is stored, and listing renders an empty array.
pub proof fn lemma_list_after_clear(
    keys: Seq<Seq<char>>,
    m: Map<Seq<char>, Seq<char>>,
)
    ensures
        ({
            let (keys1, m1, _) = memory_call(keys, m, MemoryAction::Clear, None, None);
            let (_, _, reply) = memory_call(keys1, m1, MemoryAction::List, None, None);
            &&& keys1.len() == 0
            &&& m1 == Map::<Seq<char>, Seq<char>>::empty()
            &&& reply == match json_pretty(seq!['[', ']']) {
                Some(p) => Some((p, false)),
                None => Some(("Failed to serialize keys: not JSON"@, true)),
            }
        }),
{
    let (keys1, _, _) = memory_call(keys, m, MemoryAction::Clear, None, None);
    assert(keys1.map_values(|k: Seq<char>| json_string_literal(k)) =~= Seq::<Seq<char>>::empty());
    assert(string_array_text(keys1) =~= seq!['[', ']']);
}

/// Taking a key out of a list of distinct keys leaves the other keys in
/// their order.
proof fn lemma_remove_is_filter(s: Seq<Seq<char>>, k: Seq<char>)
    requires
        s.no_duplicates(),
    ensures
        s.contains(k) ==> s.remove(s.index_of(k)) == s.filter(|x: Seq<char>| x != k),
        !s.contains(k) ==> s == s.filter(|x: Seq<char>| x != k),
    decreases s.len(),
{
    reveal(Seq::filter);
    if s.len() == 0 {
        return;
    }
    let init = s.drop_last();
    assert(init.no_duplicates());
    lemma_remove_is_filter(init, k);
    assert(s.filter(|x: Seq<char>| x != k) == (if s.last() != k {
        init.filter(|x: Seq<char>| x != k).push(s.last())
    } else {
        init.filter(|x: Seq<char>| x != k)
    }));
    if s.last() == k {
        assert(!init.contains(k)) by {
            if init.contains(k) {
                let j = choose|j: int| 0 <= j < init.len() && init[j] == k;
                assert(s[j] == s[s.len() - 1]);
            }
        }
        assert(s.contains(k)) by {
            assert(s[s.len() - 1] == k);
        }
        let p = s.index_of(k);
        assert(p == s.len() - 1);
        assert(s.remove(p) =~= init);
    } else {
        assert(init.push(s.last()) =~= s);
        if s.contains(k) {
            let p = s.index_of(k);
            assert(p < s.len() - 1);
            assert(init.contains(k)) by {
                assert(init[p] == k);
            }
            assert(init.index_of(k) == p) by {
                let q = init.index_of(k);
                assert(s[q] == k);
            }
            assert(s.remove(p) =~= init.remove(p).push(s.last()));
        } else {
            assert(!init.contains(k)) by {
                if init.contains(k) {
                    let j = choose|j: int| 0 <= j < init.len() && init[j] == k;
                    assert(s[j] == k);
                }
            }
        }
    }
}

/// Deleting a key forgets that key and nothing else: every other key keeps
/// its value, and the listed keys keep their order without the deleted one.
pub proof fn lemma_delete_only_that_key(keys: Seq<Seq<char>>, m: Map<Seq<char>, Seq<char>>, k: Seq<char>)
    requires
        keys.no_duplicates(),
        forall|x: Seq<char>| #[trigger] m.contains_key(x) <==> keys.contains(x),
    ensures
        ({
            let (keys1, m1, _) = memory_call(keys, m, MemoryAction::Delete, Some(k), None);
            &&& !m1.contains_key(k)
            &&& forall|j: Seq<char>| j != k ==> (#[trigger] m1.contains_key(j) <==> m.contains_key(j))
            &&& forall|j: Seq<char>| j != k && m.contains_key(j) ==> #[trigger] m1[j] == m[j]
            &&& keys1 == keys.filter(|x: Seq<char>| x != k)
        }),
{
    lemma_remove_is_filter(keys, k);
    assert(m.contains_key(k) == keys.contains(k));
}

/// Storing under a key changes that key's value only: every other key
/// keeps its value, and a new key is listed after the others.
pub proof fn lemma_store_only_that_key(
    keys: Seq<Seq<char>>,
    m: Map<Seq<char>, Seq<char>>,
    k: Seq<char>,
    v: Seq<char>,
)
    ensures
        ({
            let (keys1, m1, _) = memory_call(keys, m, MemoryAction::Store, Some(k), Some(v));
            &&& m1.contains_key(k) && m1[k] == v
            &&& forall|j: Seq<char>| j != k ==> (#[trigger] m1.contains_key(j) <==> m.contains_key(j))
            &&& forall|j: Seq<char>| j != k && m.contains_key(j) ==> #[trigger] m1[j] == m[j]
            &&& !m.contains_key(k) ==> keys1 == keys.push(k)
            &&& m.contains_key(k) ==> keys1 == keys
        }),
{
}

/// Deleting one key leaves what is retrieved under any other key as it
/// was.
pub proof fn lemma_retrieve_other_after_delete(
    keys: Seq<Seq<char>>,
    m: Map<Seq<char>, Seq<char>>,
    k: Seq<char>,
    j: Seq<char>,
)
    requires
        j != k,
        keys.no_duplicates(),
        forall|x: Seq<char>| #[trigger] m.contains_key(x) <==> keys.contains(x),
    ensures
        ({
            let (keys1, m1, _) = memory_call(keys, m, MemoryAction::Delete, Some(k), None);
            memory_call(keys1, m1, MemoryAction::Retrieve, Some(j), None).2
                == memory_call(keys, m, MemoryAction::Retrieve, Some(j), None).2
        }),
{
    lemma_delete_only_that_key(keys, m, k);
    let (keys1, m1, _) = memory_call(keys, m, MemoryAction::Delete, Some(k), None);
    assert(m1.contains_key(j) == m.contains_key(j));
}

/// Retrieving and listing change no memory.
pub proof fn lemma_reads_change_nothing(
    keys: Seq<Seq<char>>,
    m: Map<Seq<char>, Seq<char>>,
    k: Option<Seq<char>>,
)
    ensures
        ({
            let (keys1, m1, _) = memory_call(keys, m, MemoryAction::Retrieve, k, None);
            keys1 == keys && m1 == m
        }),
        ({
            let (keys1, m1, _) = memory_call(keys, m, MemoryAction::List, k, None);
            keys1 == keys && m1 == m
        }),
{
}

/// Retrieving a key gives back the value stored under that key, rendered
/// as JSON, and reports a missing key by name; no other key's value is
/// given.
pub proof fn lemma_retrieve_reads_its_key(keys: Seq<Seq<char>>, m: Map<Seq<char>, Seq<char>>, k: Seq<char>)
    ensures
        ({
            let reply = memory_call(keys, m, MemoryAction::Retrieve, Some(k), None).2;
            &&& m.contains_key(k) ==> (reply == match json_pretty(m[k]) {
                Some(p) => Some((p, false)),
                None => None::<(Seq<char>, bool)>,
            })
            &&& !m.contains_key(k) ==> reply == Some(("No memory found for key: "@ + k, false))
        }),
{
}

} // verus!
