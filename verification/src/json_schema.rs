//! JSON Schema as a tool's parameters are described to a chat model: the
//! input schema a tool server declares, and the schema object it is
//! converted to.
use vstd::prelude::*;
use crate::json::JsonValue;
use crate::text::str_eq;

verus! {

/// The primitive types of JSON Schema.
#[derive(Debug, Clone, Copy, PartialEq, Eq, Structural)]
pub enum InstanceType {
    Null,
    Boolean,
    Object,
    Array,
    Number,
    String,
    Integer,
}

/// One type, or a list of types.
#[derive(Debug)]
pub enum TypeSpec {
    Single(InstanceType),
    Many(Vec<InstanceType>),
}

/// A schema's annotations.
#[derive(Debug)]
pub struct SchemaMetadata {
    pub description: Option<String>,
    pub default: Option<JsonValue>,
}

/// What a schema says of an object's members.
#[derive(Debug)]
pub struct ObjectValidation {
    /// Each property's schema, by name.
    pub properties: Vec<(String, SchemaObject)>,
    /// The names of the required properties.
    pub required: Vec<String>,
}

/// A schema object.
#[derive(Debug)]
pub struct SchemaObject {
    pub instance_type: Option<TypeSpec>,
    pub metadata: Option<SchemaMetadata>,
    pub enum_values: Option<Vec<JsonValue>>,
    pub object: Option<ObjectValidation>,
    pub items: Option<Box<SchemaObject>>,
}

/// A schema document: the meta-schema it follows and its schema object.
#[derive(Debug)]
pub struct RootSchema {
    pub meta_schema: Option<String>,
    pub schema: SchemaObject,
}

/// The input schema a tool declares: its properties, each a list of
/// keyword and value in key order, and its required properties.
#[derive(Debug)]
pub struct ToolInputSchema {
    pub properties: Option<Vec<(String, Vec<(String, JsonValue)>)>>,
    pub required: Option<Vec<String>>,
}

/// The type a JSON Schema type name stands for.
pub open spec fn type_named(name: Seq<char>) -> Option<InstanceType> {
    if name == "string"@ {
        Some(InstanceType::String)
    } else if name == "integer"@ {
        Some(InstanceType::Integer)
    } else if name == "boolean"@ {
        Some(InstanceType::Boolean)
    } else if name == "object"@ {
        Some(InstanceType::Object)
    } else if name == "array"@ {
        Some(InstanceType::Array)
    } else if name == "number"@ {
        Some(InstanceType::Number)
    } else if name == "null"@ {
        Some(InstanceType::Null)
    } else {
        None
    }
}

/// The type a JSON Schema type name stands for.
pub fn single_type(name: &str) -> (t: Option<InstanceType>)
    ensures
        t == type_named(name@),
{
    if str_eq(name, "string") {
        Some(InstanceType::String)
    } else if str_eq(name, "integer") {
        Some(InstanceType::Integer)
    } else if str_eq(name, "boolean") {
        Some(InstanceType::Boolean)
    } else if str_eq(name, "object") {
        Some(InstanceType::Object)
    } else if str_eq(name, "array") {
        Some(InstanceType::Array)
    } else if str_eq(name, "number") {
        Some(InstanceType::Number)
    } else if str_eq(name, "null") {
        Some(InstanceType::Null)
    } else {
        None
    }
}

/// The types named by the string elements of a list that name a type, in
/// order; other elements are skipped.
pub open spec fn types_named(vs: Seq<JsonValue>) -> Seq<InstanceType>
    decreases vs.len(),
{
    if vs.len() == 0 {
        Seq::empty()
    } else {
        let pre = types_named(vs.drop_last());
        match vs.last() {
            JsonValue::Str(s) => match type_named(s@) {
                Some(t) => pre.push(t),
                None => pre,
            },
            _ => pre,
        }
    }
}

/// The types named in a list.
pub fn named_types(vs: &Vec<JsonValue>) -> (r: Vec<InstanceType>)
    ensures
        r@ == types_named(vs@),
{
    let mut out: Vec<InstanceType> = Vec::new();
    let mut i: usize = 0;
    while i < vs.len()
        invariant
            i <= vs.len(),
            out@ == types_named(vs@.subrange(0, i as int)),
        decreases vs.len() - i,
    {
        assert(vs@.subrange(0, i + 1).drop_last() =~= vs@.subrange(0, i as int));
        match &vs[i] {
            JsonValue::Str(s) => match single_type(s.as_str()) {
                Some(t) => out.push(t),
                None => {},
            },
            _ => {},
        }
        i = i + 1;
    }
    assert(vs@.subrange(0, vs.len() as int) =~= vs@);
    out
}

/// The meta-schema of the converted schemas.
pub open spec fn draft_07() -> Seq<char> {
    "http://json-schema.org/draft-07/schema#"@
}

/// The empty schema object.
pub fn empty_schema() -> (s: SchemaObject)
    ensures
        s.instance_type is None,
        s.metadata is None,
        s.enum_values is None,
        s.object is None,
        s.items is None,
{
    SchemaObject { instance_type: None, metadata: None, enum_values: None, object: None, items: None }
}

} // verus!
