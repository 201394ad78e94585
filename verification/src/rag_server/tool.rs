//! The RAG server's tools: the tool servers it is connected to, the lookup
//! of a tool by name, and the conversion of a tool's declared input schema
//! to the schema a chat model is given.
use vstd::prelude::*;
use crate::json::JsonValue;
use crate::json_schema::{
    draft_07, empty_schema, named_types, single_type, type_named, types_named, InstanceType, ObjectValidation,
    RootSchema, SchemaMetadata, SchemaObject, ToolInputSchema, TypeSpec,
};
use crate::cognition::tool_schema::{name_set, name_set_exec, names};
use crate::text::{append_str, from_chars, str_eq};

verus! {

/// The view of a type specification.
pub enum TypeView {
    Single(InstanceType),
    Many(Seq<InstanceType>),
}

/// What converting a property's keywords yields: its type, its metadata
/// (description and default) and its allowed values.
pub struct PropertyView {
    pub ty: Option<TypeView>,
    pub meta: Option<(Option<Seq<char>>, Option<JsonValue>)>,
    pub enums: Option<Seq<JsonValue>>,
}

/// The view of a converted property schema.
pub open spec fn property_view(s: SchemaObject) -> PropertyView {
    PropertyView {
        ty: match s.instance_type {
            Some(TypeSpec::Single(t)) => Some(TypeView::Single(t)),
            Some(TypeSpec::Many(ts)) => Some(TypeView::Many(ts@)),
            None => None,
        },
        meta: match s.metadata {
            Some(m) => Some((match m.description { Some(d) => Some(d@), None => None }, m.default)),
            None => None,
        },
        enums: match s.enum_values {
            Some(vs) => Some(vs@),
            None => None,
        },
    }
}

/// A property with no keyword read yet.
pub open spec fn no_property() -> PropertyView {
    PropertyView { ty: None, meta: None, enums: None }
}

/// Reads one keyword of a property: a string `description` replaces the
/// metadata; `type` is a type name (an unknown one is an error) or a list
/// of them (unknown ones dropped), anything else an error; `default` is
/// kept with the description; an array `enum` lists the allowed values;
/// other keywords are ignored.
pub open spec fn property_step(p: PropertyView, key: Seq<char>, value: JsonValue) -> Result<PropertyView, Seq<char>> {
    if key == "description"@ {
        match value {
            JsonValue::Str(d) => Ok(PropertyView { meta: Some((Some(d@), None)), ..p }),
            _ => Ok(p),
        }
    } else if key == "type"@ {
        match value {
            JsonValue::Str(t) => match type_named(t@) {
                Some(it) => Ok(PropertyView { ty: Some(TypeView::Single(it)), ..p }),
                None => Err("Unsupported type: "@ + t@),
            },
            JsonValue::Array(ts) => Ok(PropertyView { ty: Some(TypeView::Many(types_named(ts@))), ..p }),
            _ => Err("Invalid type value"@),
        }
    } else if key == "default"@ {
        Ok(PropertyView {
            meta: Some((match p.meta { Some(m) => m.0, None => None }, Some(value))),
            ..p
        })
    } else if key == "enum"@ {
        match value {
            JsonValue::Array(vs) => Ok(PropertyView { enums: Some(vs@), ..p }),
            _ => Ok(p),
        }
    } else {
        Ok(p)
    }
}

/// Reads a property's keywords in order; the first error stops it.
pub open spec fn property_fold(ms: Seq<(String, JsonValue)>) -> Result<PropertyView, Seq<char>>
    decreases ms.len(),
{
    if ms.len() == 0 {
        Ok(no_property())
    } else {
        match property_fold(ms.drop_last()) {
            Ok(p) => property_step(p, ms.last().0@, ms.last().1),
            Err(e) => Err(e),
        }
    }
}

/// An error reading a prefix of the keywords is the error of all of them.
proof fn lemma_fold_error(ms: Seq<(String, JsonValue)>, k: int)
    requires
        0 <= k <= ms.len(),
        property_fold(ms.subrange(0, k)) is Err,
    ensures
        property_fold(ms) == property_fold(ms.subrange(0, k)),
    decreases ms.len() - k,
{
    if k < ms.len() {
        assert(ms.subrange(0, k + 1).drop_last() =~= ms.subrange(0, k));
        lemma_fold_error(ms, k + 1);
    } else {
        assert(ms.subrange(0, k) =~= ms);
    }
}

/// Converts a property's keywords to its schema.
pub fn convert_property(members: Vec<(String, JsonValue)>) -> (r: Result<SchemaObject, String>)
    ensures
        match (r, property_fold(members@)) {
            (Ok(s), Ok(p)) => property_view(s) == p && s.object is None && s.items is None,
            (Err(e), Err(m)) => e@ == m,
            _ => false,
        },
{
    let ghost all = members@;
    let mut rest = members;
    let mut acc = empty_schema();
    let ghost mut k: int = 0;
    assert(all.subrange(0, 0) =~= Seq::<(String, JsonValue)>::empty());
    assert(property_view(acc) == no_property());
    while rest.len() > 0
        invariant
            0 <= k <= all.len(),
            all == members@,
            rest@ == all.subrange(k, all.len() as int),
            property_fold(all.subrange(0, k)) == Ok::<PropertyView, Seq<char>>(property_view(acc)),
            acc.object is None,
            acc.items is None,
        decreases rest.len(),
    {
        let (key, value) = rest.remove(0);
        proof {
            assert(all.subrange(0, k + 1).drop_last() =~= all.subrange(0, k));
            assert(all.subrange(0, k + 1).last() == all[k]);
            assert(all[k] == (key, value));
        }
        let ghost before = property_view(acc);
        let ghost v0 = value;
        let ghost k0 = key@;
        proof {
            assert(property_fold(all.subrange(0, k + 1)) == property_step(before, k0, v0));
        }
        if str_eq(key.as_str(), "description") {
            match value {
                JsonValue::Str(d) => {
                    acc.metadata = Some(SchemaMetadata { description: Some(d), default: None });
                },
                _ => {},
            }
        } else if str_eq(key.as_str(), "type") {
            match value {
                JsonValue::Str(t) => match single_type(t.as_str()) {
                    Some(it) => {
                        acc.instance_type = Some(TypeSpec::Single(it));
                    },
                    None => {
                        let mut m: Vec<char> = Vec::new();
                        append_str(&mut m, "Unsupported type: ");
                        append_str(&mut m, t.as_str());
                        let msg = from_chars(&m);
                        proof {
                            assert(m@ =~= "Unsupported type: "@ + t@);
                            assert(k0 != "description"@);
                            assert(property_step(before, k0, v0) == Err::<PropertyView, Seq<char>>(
                                "Unsupported type: "@ + t@));
                            lemma_fold_error(all, k + 1);
                            assert(property_fold(all) == Err::<PropertyView, Seq<char>>(msg@));
                        }
                        return Err(msg);
                    },
                },
                JsonValue::Array(ts) => {
                    let types = named_types(&ts);
                    acc.instance_type = Some(TypeSpec::Many(types));
                },
                _ => {
                    proof {
                        assert(k0 != "description"@);
                        assert(property_step(before, k0, v0) == Err::<PropertyView, Seq<char>>("Invalid type value"@));
                        lemma_fold_error(all, k + 1);
                        assert(property_fold(all) == Err::<PropertyView, Seq<char>>("Invalid type value"@));
                    }
                    let msg = "Invalid type value".to_owned();
                    assert(msg@ == "Invalid type value"@);
                    return Err(msg);
                },
            }
        } else if str_eq(key.as_str(), "default") {
            let description = match acc.metadata {
                Some(m) => m.description,
                None => None,
            };
            acc.metadata = Some(SchemaMetadata { description, default: Some(value) });
        } else if str_eq(key.as_str(), "enum") {
            match value {
                JsonValue::Array(vs) => {
                    acc.enum_values = Some(vs);
                },
                _ => {},
            }
        }
        proof {
            k = k + 1;
        }
    }
    assert(all.subrange(0, k) =~= all);
    Ok(acc)
}

/// Converts the properties in order, each to its name and the view of its
/// schema; the first property that does not convert gives the error.
pub open spec fn properties_fold(ps: Seq<(String, Vec<(String, JsonValue)>)>)
    -> Result<Seq<(Seq<char>, PropertyView)>, Seq<char>>
    decreases ps.len(),
{
    if ps.len() == 0 {
        Ok(Seq::empty())
    } else {
        match properties_fold(ps.drop_last()) {
            Ok(vs) => match property_fold(ps.last().1@) {
                Ok(p) => Ok(vs.push((ps.last().0@, p))),
                Err(e) => Err(e),
            },
            Err(e) => Err(e),
        }
    }
}

/// The converted properties match their views.
pub open spec fn properties_match(ps: Seq<(String, SchemaObject)>, vs: Seq<(Seq<char>, PropertyView)>) -> bool {
    &&& ps.len() == vs.len()
    &&& forall|i: int| 0 <= i < ps.len() ==> (#[trigger] ps[i]).0@ == vs[i].0 && property_view(ps[i].1) == vs[i].1
}

/// An error converting a prefix of the properties is the error of all.
proof fn lemma_properties_error(ps: Seq<(String, Vec<(String, JsonValue)>)>, k: int)
    requires
        0 <= k <= ps.len(),
        properties_fold(ps.subrange(0, k)) is Err,
    ensures
        properties_fold(ps) == properties_fold(ps.subrange(0, k)),
    decreases ps.len() - k,
{
    if k < ps.len() {
        assert(ps.subrange(0, k + 1).drop_last() =~= ps.subrange(0, k));
        lemma_properties_error(ps, k + 1);
    } else {
        assert(ps.subrange(0, k) =~= ps);
    }
}

/// Converts the properties in order; the first error stops it.
fn convert_properties(props: Vec<(String, Vec<(String, JsonValue)>)>) -> (r: Result<Vec<(String, SchemaObject)>, String>)
    ensures
        match (r, properties_fold(props@)) {
            (Ok(ps), Ok(vs)) => properties_match(ps@, vs),
            (Err(e), Err(m)) => e@ == m,
            _ => false,
        },
{
    let ghost all = props@;
    let mut rest = props;
    let mut out: Vec<(String, SchemaObject)> = Vec::new();
    let ghost mut vs: Seq<(Seq<char>, PropertyView)> = Seq::empty();
    assert(all.subrange(0, 0) =~= Seq::<(String, Vec<(String, JsonValue)>)>::empty());
    while rest.len() > 0
        invariant
            all == props@,
            out.len() + rest.len() == all.len(),
            rest@ == all.subrange(out.len() as int, all.len() as int),
            properties_fold(all.subrange(0, out.len() as int)) == Ok::<Seq<(Seq<char>, PropertyView)>, Seq<char>>(vs),
            properties_match(out@, vs),
        decreases rest.len(),
    {
        let (name, members) = rest.remove(0);
        let ghost n = out.len() as int;
        proof {
            assert(all[n] == (name, members));
            assert(all.subrange(0, n + 1).drop_last() =~= all.subrange(0, n));
            assert(all.subrange(0, n + 1).last() == all[n]);
        }
        let ghost nv = name@;
        match convert_property(members) {
            Ok(s) => {
                let ghost p = property_view(s);
                out.push((name, s));
                proof {
                    vs = vs.push((nv, p));
                    assert(properties_match(out@, vs)) by {
                        assert forall|i: int| 0 <= i < out.len() implies (#[trigger] out@[i]).0@ == vs[i].0
                            && property_view(out@[i].1) == vs[i].1 by {
                            if i < n {
                                assert(out@[i] == old_out_at(out@, i));
                            }
                        }
                    }
                }
            },
            Err(e) => {
                proof {
                    lemma_properties_error(all, n + 1);
                }
                return Err(e);
            },
        }
    }
    assert(all.subrange(0, out.len() as int) =~= all);
    Ok(out)
}

/// The element at `i` (a name for an index term).
spec fn old_out_at(s: Seq<(String, SchemaObject)>, i: int) -> (String, SchemaObject) {
    s[i]
}

/// What the root schema converted from a tool's input schema is, once its
/// properties converted.
pub open spec fn converted_root(input: ToolInputSchema, root: RootSchema) -> bool {
    &&& root.meta_schema matches Some(m) && m@ == draft_07()
    &&& root.schema.instance_type matches Some(TypeSpec::Single(InstanceType::Object))
    &&& root.schema.metadata is None && root.schema.enum_values is None && root.schema.items is None
    &&& match input.properties {
        Some(props) => root.schema.object matches Some(ov) && properties_match(
            ov.properties@,
            properties_fold(props@)->Ok_0,
        ) && match input.required {
            Some(req) => names(ov.required@) == name_set(names(req@)),
            None => ov.required.len() == 0,
        },
        None => match input.required {
            Some(req) => root.schema.object matches Some(ov) && ov.properties.len() == 0 && names(ov.required@)
                == name_set(names(req@)),
            None => root.schema.object is None,
        },
    }
}

/// Converts a tool's input schema to the schema given to a chat model: an
/// object whose properties are converted one by one and whose required
/// names are kept as a sorted set, under the draft-07 meta-schema. The first
/// property that does not convert makes it fail.
pub fn convert_to_root_schema(input: ToolInputSchema) -> (r: Result<RootSchema, String>)
    ensures
        match r {
            Ok(root) => schema_converts(input) && converted_root(input, root),
            Err(e) => input.properties matches Some(props) && (properties_fold(props@) matches Err(m) && e@ == m),
        },
{
    let mut schema = empty_schema();
    schema.instance_type = Some(TypeSpec::Single(InstanceType::Object));
    match input.properties {
        Some(props) => match convert_properties(props) {
            Ok(ps) => {
                schema.object = Some(ObjectValidation { properties: ps, required: Vec::new() });
            },
            Err(e) => return Err(e),
        },
        None => {},
    }
    match input.required {
        Some(req) => {
            let required = name_set_exec(req);
            let properties = match schema.object {
                Some(ov) => ov.properties,
                None => Vec::new(),
            };
            schema.object = Some(ObjectValidation { properties, required });
        },
        None => {},
    }
    Ok(RootSchema { meta_schema: Some("http://json-schema.org/draft-07/schema#".to_owned()), schema })
}

/// A tool as a chat model is told of it: its name, description and
/// parameter schema.
#[derive(Debug)]
pub struct ToolInfo {
    pub name: String,
    pub description: String,
    pub parameters: RootSchema,
}

/// A connected tool server and its tools.
#[derive(Debug)]
pub struct ToolClient {
    /// The server's name.
    pub server: String,
    /// The identifier of the client actor that talks to it.
    pub client_id: String,
    pub tools: Vec<ToolInfo>,
}

/// The tool servers the RAG server is connected to, in order.
#[derive(Debug)]
pub struct Tools {
    pub clients: Vec<ToolClient>,
}

/// `(c, t)` is the first tool named `name`, searching the clients in order
/// and each client's tools in order.
pub open spec fn first_tool_at(clients: Seq<ToolClient>, name: Seq<char>, c: int, t: int) -> bool {
    &&& 0 <= c < clients.len()
    &&& 0 <= t < clients[c].tools.len()
    &&& clients[c].tools@[t].name@ == name
    &&& forall|c2: int, t2: int| 0 <= c2 < c && 0 <= t2 < clients[c2].tools.len()
        ==> (#[trigger] clients[c2].tools@[t2]).name@ != name
    &&& forall|t2: int| 0 <= t2 < t ==> (#[trigger] clients[c].tools@[t2]).name@ != name
}

impl Tools {
    /// No tool server yet.
    pub fn new() -> (t: Self)
        ensures
            t.clients.len() == 0,
    {
        Tools { clients: Vec::new() }
    }

    /// Adds a connected tool server with its tools.
    pub fn add_client(&mut self, client: ToolClient)
        ensures
            final(self).clients@ == old(self).clients@.push(client),
    {
        self.clients.push(client);
    }

    /// The first tool named `tool_name`, with the server that has it.
    pub fn get_tool(&self, tool_name: &str) -> (r: Option<(&ToolInfo, &ToolClient)>)
        ensures
            match r {
                Some((t, c)) => exists|ci: int, ti: int| first_tool_at(self.clients@, tool_name@, ci, ti)
                    && *c == self.clients@[ci] && *t == self.clients@[ci].tools@[ti],
                None => forall|ci: int, ti: int| 0 <= ci < self.clients.len() && 0 <= ti < self.clients@[ci].tools.len()
                    ==> (#[trigger] self.clients@[ci].tools@[ti]).name@ != tool_name@,
            },
    {
        let mut c: usize = 0;
        while c < self.clients.len()
            invariant
                c <= self.clients.len(),
                forall|c2: int, t2: int| 0 <= c2 < c && 0 <= t2 < self.clients@[c2].tools.len()
                    ==> (#[trigger] self.clients@[c2].tools@[t2]).name@ != tool_name@,
            decreases self.clients.len() - c,
        {
            let client = &self.clients[c];
            let mut t: usize = 0;
            while t < client.tools.len()
                invariant
                    t <= client.tools.len(),
                    c < self.clients.len(),
                    *client == self.clients@[c as int],
                    forall|t2: int| 0 <= t2 < t ==> (#[trigger] client.tools@[t2]).name@ != tool_name@,
                    forall|c2: int, t2: int| 0 <= c2 < c && 0 <= t2 < self.clients@[c2].tools.len()
                        ==> (#[trigger] self.clients@[c2].tools@[t2]).name@ != tool_name@,
                decreases client.tools.len() - t,
            {
                if str_eq(client.tools[t].name.as_str(), tool_name) {
                    assert(first_tool_at(self.clients@, tool_name@, c as int, t as int));
                    return Some((&client.tools[t], client));
                }
                t = t + 1;
            }
            c = c + 1;
        }
        None
    }

    /// All tools, server by server.
    pub fn get_tools(&self) -> (r: Vec<&ToolInfo>)
        ensures
            r@.map_values(|t: &ToolInfo| *t) == all_tools(self.clients@),
    {
        let mut out: Vec<&ToolInfo> = Vec::new();
        let mut c: usize = 0;
        while c < self.clients.len()
            invariant
                c <= self.clients.len(),
                out@.map_values(|t: &ToolInfo| *t) == all_tools(self.clients@.subrange(0, c as int)),
            decreases self.clients.len() - c,
        {
            let client = &self.clients[c];
            let ghost base = out@.map_values(|t: &ToolInfo| *t);
            let mut t: usize = 0;
            while t < client.tools.len()
                invariant
                    t <= client.tools.len(),
                    c < self.clients.len(),
                    *client == self.clients@[c as int],
                    out@.map_values(|t: &ToolInfo| *t) == base + client.tools@.subrange(0, t as int),
                decreases client.tools.len() - t,
            {
                let ghost prev = out@;
                out.push(&client.tools[t]);
                assert(out@.map_values(|x: &ToolInfo| *x) =~= prev.map_values(|x: &ToolInfo| *x).push(
                    client.tools@[t as int]));
                assert(client.tools@.subrange(0, t + 1) =~= client.tools@.subrange(0, t as int).push(
                    client.tools@[t as int]));
                assert(out@.map_values(|x: &ToolInfo| *x) =~= base + client.tools@.subrange(0, t + 1));
                t = t + 1;
            }
            assert(client.tools@.subrange(0, client.tools.len() as int) =~= client.tools@);
            assert(self.clients@.subrange(0, c + 1).drop_last() =~= self.clients@.subrange(0, c as int));
            c = c + 1;
        }
        assert(self.clients@.subrange(0, self.clients.len() as int) =~= self.clients@);
        out
    }

    /// The names of all tools, server by server.
    pub fn get_tool_names(&self) -> (r: Vec<String>)
        ensures
            r@.map_values(|s: String| s@) == tool_names(self.clients@),
    {
        let mut out: Vec<String> = Vec::new();
        let mut c: usize = 0;
        while c < self.clients.len()
            invariant
                c <= self.clients.len(),
                out@.map_values(|s: String| s@) == tool_names(self.clients@.subrange(0, c as int)),
            decreases self.clients.len() - c,
        {
            let client = &self.clients[c];
            let ghost base = out@.map_values(|s: String| s@);
            let mut t: usize = 0;
            while t < client.tools.len()
                invariant
                    t <= client.tools.len(),
                    c < self.clients.len(),
                    *client == self.clients@[c as int],
                    out@.map_values(|s: String| s@) == base + client.tools@.subrange(0, t as int).map_values(
                        |ti: ToolInfo| ti.name@),
                decreases client.tools.len() - t,
            {
                let ghost prev = out@;
                out.push(client.tools[t].name.clone());
                assert(out@.map_values(|s: String| s@) =~= prev.map_values(|s: String| s@).push(
                    client.tools@[t as int].name@));
                assert(client.tools@.subrange(0, t + 1).map_values(|ti: ToolInfo| ti.name@)
                    =~= client.tools@.subrange(0, t as int).map_values(|ti: ToolInfo| ti.name@).push(
                    client.tools@[t as int].name@));
                assert(out@.map_values(|s: String| s@) =~= base + client.tools@.subrange(0, t + 1).map_values(
                    |ti: ToolInfo| ti.name@));
                t = t + 1;
            }
            assert(client.tools@.subrange(0, client.tools.len() as int) =~= client.tools@);
            assert(self.clients@.subrange(0, c + 1).drop_last() =~= self.clients@.subrange(0, c as int));
            c = c + 1;
        }
        assert(self.clients@.subrange(0, self.clients.len() as int) =~= self.clients@);
        out
    }
}

/// The names of the tools of the clients, client by client.
pub open spec fn tool_names(clients: Seq<ToolClient>) -> Seq<Seq<char>>
    decreases clients.len(),
{
    if clients.len() == 0 {
        Seq::empty()
    } else {
        tool_names(clients.drop_last()) + clients.last().tools@.map_values(|t: ToolInfo| t.name@)
    }
}


/// The tools of the clients, client by client.
pub open spec fn all_tools(clients: Seq<ToolClient>) -> Seq<ToolInfo>
    decreases clients.len(),
{
    if clients.len() == 0 {
        Seq::empty()
    } else {
        all_tools(clients.drop_last()) + clients.last().tools@
    }
}

/// Whether a tool's input schema converts.
pub open spec fn schema_converts(input: ToolInputSchema) -> bool {
    match input.properties {
        Some(props) => properties_fold(props@) is Ok,
        None => true,
    }
}

/// A tool as the chat model is told of it, from its name, description and
/// input schema (which must convert).
pub fn parse_tool_info(name: String, description: Option<String>, input: ToolInputSchema) -> (t: ToolInfo)
    requires
        schema_converts(input),
    ensures
        t.name@ == name@,
        t.description@ == match description {
            Some(d) => d@,
            None => Seq::<char>::empty(),
        },
        converted_root(input, t.parameters),
{
    let description = match description {
        Some(d) => d,
        None => String::new(),
    };
    match convert_to_root_schema(input) {
        Ok(parameters) => ToolInfo { name, description, parameters },
        Err(_) => {
            proof {
                assert(false);
            }
            ToolInfo { name, description, parameters: RootSchema { meta_schema: None, schema: empty_schema() } }
        },
    }
}

} // verus!
