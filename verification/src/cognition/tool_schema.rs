//! The conversion of a tool's declared input schema to the schema a chat
//! model is given, as the cognition server does it: nested properties,
//! array items, required names and allowed values carry over, and the
//! keywords of a property are read as a JSON object holds them, by name,
//! the last occurrence of a name counting.
use vstd::prelude::*;
use crate::json::JsonValue;
use crate::json_schema::{
    draft_07, empty_schema, named_types, single_type, type_named, types_named, InstanceType, ObjectValidation,
    RootSchema, SchemaMetadata, SchemaObject, ToolInputSchema, TypeSpec,
};
use crate::rag_server::tool::{ToolInfo, TypeView};
use crate::text::{append_str, from_chars, str_eq, to_chars};

verus! {

/// What a converted property schema says: its type, its metadata
/// (description and default), its allowed values, the schema of its array
/// items, and its object properties with the names they require.
pub struct PropertySchema {
    pub ty: Option<TypeView>,
    pub meta: Option<(Option<Seq<char>>, Option<JsonValue>)>,
    pub enums: Option<Seq<JsonValue>>,
    pub items: Option<Box<PropertySchema>>,
    pub object: Option<(Seq<(Seq<char>, PropertySchema)>, Seq<Seq<char>>)>,
}

/// The value of the last member named `key`, if any.
pub open spec fn keyword(ms: Seq<(String, JsonValue)>, key: Seq<char>) -> Option<JsonValue>
    decreases ms.len(),
{
    if ms.len() == 0 {
        None
    } else if ms.last().0@ == key {
        Some(ms.last().1)
    } else {
        keyword(ms.drop_last(), key)
    }
}

/// The value found for a keyword is the value of one of the members.
pub proof fn lemma_keyword_member(ms: Seq<(String, JsonValue)>, key: Seq<char>)
    requires
        keyword(ms, key) is Some,
    ensures
        exists|i: int| 0 <= i < ms.len() && #[trigger] ms[i].1 == keyword(ms, key)->0,
    decreases ms.len(),
{
    if ms.last().0@ == key {
        assert(ms[ms.len() - 1].1 == keyword(ms, key)->0);
    } else {
        lemma_keyword_member(ms.drop_last(), key);
        let i = choose|i: int| 0 <= i < ms.drop_last().len() && #[trigger] ms.drop_last()[i].1 == keyword(
            ms.drop_last(),
            key,
        )->0;
        assert(ms[i] == ms.drop_last()[i]);
    }
}

/// The type a `type` value declares: one type name (an unknown one is an
/// error), or a list of which the known type names are kept (none is an
/// error); anything else is an error.
pub open spec fn type_of_value(v: JsonValue) -> Result<TypeView, Seq<char>> {
    match v {
        JsonValue::Str(t) => match type_named(t@) {
            Some(it) => Ok(TypeView::Single(it)),
            None => Err("Unsupported type: "@ + t@),
        },
        JsonValue::Array(ts) => if types_named(ts@).len() == 0 {
            Err("No valid types found in array"@)
        } else {
            Ok(TypeView::Many(types_named(ts@)))
        },
        _ => Err("Invalid type value"@),
    }
}

/// The schema of a nested property given by its type alone.
pub open spec fn type_only(v: JsonValue) -> Result<PropertySchema, Seq<char>> {
    match type_of_value(v) {
        Ok(t) => Ok(
            PropertySchema { ty: Some(t), meta: Some((None, None)), enums: None, items: None, object: None },
        ),
        Err(e) => Err(e),
    }
}

/// The strings of a list, in order; other elements are skipped.
pub open spec fn string_items(vs: Seq<JsonValue>) -> Seq<Seq<char>>
    decreases vs.len(),
{
    if vs.len() == 0 {
        Seq::empty()
    } else {
        match vs.last() {
            JsonValue::Str(s) => string_items(vs.drop_last()).push(s@),
            _ => string_items(vs.drop_last()),
        }
    }
}

/// Whether `a` comes before `b` in the order of their characters.
pub open spec fn chars_less(a: Seq<char>, b: Seq<char>) -> bool
    decreases a.len(),
{
    if a.len() == 0 {
        b.len() > 0
    } else if b.len() == 0 {
        false
    } else if a[0] != b[0] {
        a[0] < b[0]
    } else {
        chars_less(a.drop_first(), b.drop_first())
    }
}

/// A sorted list of distinct names with one more name put in its place.
pub open spec fn insert_sorted(s: Seq<Seq<char>>, x: Seq<char>) -> Seq<Seq<char>>
    decreases s.len(),
{
    if s.len() == 0 {
        seq![x]
    } else if s[0] == x {
        s
    } else if chars_less(x, s[0]) {
        seq![x] + s
    } else {
        seq![s[0]] + insert_sorted(s.drop_first(), x)
    }
}

/// The names as a set: sorted, each once.
pub open spec fn name_set(xs: Seq<Seq<char>>) -> Seq<Seq<char>>
    decreases xs.len(),
{
    if xs.len() == 0 {
        Seq::empty()
    } else {
        insert_sorted(name_set(xs.drop_last()), xs.last())
    }
}

/// Each name comes before the next ones.
pub open spec fn strictly_sorted(s: Seq<Seq<char>>) -> bool {
    forall|i: int, j: int| 0 <= i < j < s.len() ==> chars_less(#[trigger] s[i], #[trigger] s[j])
}

proof fn lemma_less_irreflexive(a: Seq<char>)
    ensures
        !chars_less(a, a),
    decreases a.len(),
{
    if a.len() > 0 {
        lemma_less_irreflexive(a.drop_first());
    }
}

proof fn lemma_less_transitive(a: Seq<char>, b: Seq<char>, c: Seq<char>)
    requires
        chars_less(a, b),
        chars_less(b, c),
    ensures
        chars_less(a, c),
    decreases a.len(),
{
    if a.len() > 0 && a[0] == b[0] && b[0] == c[0] {
        lemma_less_transitive(a.drop_first(), b.drop_first(), c.drop_first());
    }
}

proof fn lemma_less_total(a: Seq<char>, b: Seq<char>)
    requires
        a != b,
    ensures
        chars_less(a, b) || chars_less(b, a),
    decreases a.len(),
{
    if a.len() > 0 && b.len() > 0 && a[0] == b[0] {
        if a.drop_first() == b.drop_first() {
            assert(a =~= seq![a[0]] + a.drop_first());
            assert(b =~= seq![b[0]] + b.drop_first());
            assert(a =~= b);
        }
        lemma_less_total(a.drop_first(), b.drop_first());
    } else if a.len() == 0 && b.len() == 0 {
        assert(a =~= b);
    }
}

proof fn lemma_insert_sorted(s: Seq<Seq<char>>, x: Seq<char>)
    requires
        strictly_sorted(s),
    ensures
        strictly_sorted(insert_sorted(s, x)),
        forall|y: Seq<char>| #[trigger] insert_sorted(s, x).contains(y) <==> (s.contains(y) || y == x),
    decreases s.len(),
{
    let r = insert_sorted(s, x);
    if s.len() == 0 {
        assert(r =~= seq![x]);
        assert forall|y: Seq<char>| #[trigger] r.contains(y) <==> (s.contains(y) || y == x) by {
            if r.contains(y) {
                let k = choose|k: int| 0 <= k < r.len() && r[k] == y;
                assert(k == 0);
            }
            if y == x {
                assert(r[0] == y);
            }
        }
    } else if s[0] == x {
        assert forall|y: Seq<char>| #[trigger] r.contains(y) <==> (s.contains(y) || y == x) by {
            if y == x {
                assert(s[0] == y);
            }
        }
    } else if chars_less(x, s[0]) {
        assert(r =~= seq![x] + s);
        assert forall|i: int, j: int| 0 <= i < j < r.len() implies chars_less(#[trigger] r[i], #[trigger] r[j]) by {
            if i == 0 {
                assert(r[j] == s[j - 1]);
                if j - 1 > 0 {
                    assert(chars_less(s[0], s[j - 1]));
                    lemma_less_transitive(x, s[0], s[j - 1]);
                }
            } else {
                assert(r[i] == s[i - 1] && r[j] == s[j - 1]);
            }
        }
        assert forall|y: Seq<char>| #[trigger] r.contains(y) <==> (s.contains(y) || y == x) by {
            if r.contains(y) {
                let k = choose|k: int| 0 <= k < r.len() && r[k] == y;
                if k > 0 {
                    assert(s[k - 1] == y);
                }
            }
            if s.contains(y) {
                let k = choose|k: int| 0 <= k < s.len() && s[k] == y;
                assert(r[k + 1] == y);
            }
            if y == x {
                assert(r[0] == y);
            }
        }
    } else {
        let t = s.drop_first();
        assert(strictly_sorted(t)) by {
            assert forall|i: int, j: int| 0 <= i < j < t.len() implies chars_less(#[trigger] t[i], #[trigger] t[j]) by {
                assert(t[i] == s[i + 1] && t[j] == s[j + 1]);
            }
        }
        lemma_insert_sorted(t, x);
        let it = insert_sorted(t, x);
        assert(r =~= seq![s[0]] + it);
        lemma_less_total(x, s[0]);
        assert forall|y: Seq<char>| #[trigger] it.contains(y) implies chars_less(s[0], y) by {
            if t.contains(y) {
                let k = choose|k: int| 0 <= k < t.len() && t[k] == y;
                assert(s[k + 1] == y);
            }
        }
        assert forall|i: int, j: int| 0 <= i < j < r.len() implies chars_less(#[trigger] r[i], #[trigger] r[j]) by {
            if i == 0 {
                assert(r[j] == it[j - 1]);
                assert(it.contains(it[j - 1]));
            } else {
                assert(r[i] == it[i - 1] && r[j] == it[j - 1]);
            }
        }
        assert forall|y: Seq<char>| #[trigger] r.contains(y) <==> (s.contains(y) || y == x) by {
            if r.contains(y) {
                let k = choose|k: int| 0 <= k < r.len() && r[k] == y;
                if k > 0 {
                    assert(it[k - 1] == y);
                    assert(it.contains(y));
                    if t.contains(y) {
                        let m = choose|m: int| 0 <= m < t.len() && t[m] == y;
                        assert(s[m + 1] == y);
                    }
                } else {
                    assert(s[0] == y);
                }
            }
            if s.contains(y) {
                let k = choose|k: int| 0 <= k < s.len() && s[k] == y;
                if k == 0 {
                    assert(r[0] == y);
                } else {
                    assert(t[k - 1] == y);
                    assert(t.contains(y));
                    assert(it.contains(y));
                    let m = choose|m: int| 0 <= m < it.len() && it[m] == y;
                    assert(r[m + 1] == y);
                }
            }
            if y == x {
                assert(it.contains(y));
                let m = choose|m: int| 0 <= m < it.len() && it[m] == y;
                assert(r[m + 1] == y);
            }
        }
    }
}

/// The required names of a converted schema are a set: sorted, each once,
/// and exactly the names given.
pub proof fn lemma_name_set_is_set(xs: Seq<Seq<char>>)
    ensures
        strictly_sorted(name_set(xs)),
        forall|y: Seq<char>| #[trigger] name_set(xs).contains(y) <==> xs.contains(y),
        forall|i: int, j: int| 0 <= i < j < name_set(xs).len() ==> name_set(xs)[i] != name_set(xs)[j],
    decreases xs.len(),
{
    if xs.len() > 0 {
        let pre = xs.drop_last();
        lemma_name_set_is_set(pre);
        lemma_insert_sorted(name_set(pre), xs.last());
        assert forall|y: Seq<char>| #[trigger] name_set(xs).contains(y) <==> xs.contains(y) by {
            if pre.contains(y) {
                let k = choose|k: int| 0 <= k < pre.len() && pre[k] == y;
                assert(xs[k] == y);
            }
            if xs.contains(y) {
                let k = choose|k: int| 0 <= k < xs.len() && xs[k] == y;
                if k < xs.len() - 1 {
                    assert(pre[k] == y);
                }
            }
        }
    }
    let r = name_set(xs);
    assert forall|i: int, j: int| 0 <= i < j < r.len() implies r[i] != r[j] by {
        assert(chars_less(r[i], r[j]));
        if r[i] == r[j] {
            lemma_less_irreflexive(r[i]);
        }
    }
}

/// The object part of a property: its converted properties, if it has
/// an object of them, with no required names; a list of required names
/// makes it an object (with no properties, if it had none) requiring the
/// string ones.
pub open spec fn object_part(
    props: Option<Seq<(Seq<char>, PropertySchema)>>,
    required: Option<JsonValue>,
) -> Option<(Seq<(Seq<char>, PropertySchema)>, Seq<Seq<char>>)> {
    match required {
        Some(JsonValue::Array(vs)) => Some(
            (
                match props {
                    Some(ps) => ps,
                    None => Seq::empty(),
                },
                name_set(string_items(vs@)),
            ),
        ),
        _ => match props {
            Some(ps) => Some((ps, Seq::empty())),
            None => None,
        },
    }
}

/// A property's schema from its keywords. Its `items` object, its
/// `properties` object and its `type` are converted in this order, and
/// the first that fails gives the error; a string `description`, a
/// `default`, an array `enum` and an array `required` are carried over;
/// other keywords are ignored.
pub open spec fn property_schema(ms: Seq<(String, JsonValue)>) -> Result<PropertySchema, Seq<char>>
    decreases ms,
{
    let items: Result<Option<Box<PropertySchema>>, Seq<char>> = match keyword(ms, "items"@) {
        Some(JsonValue::Object(o)) => {
            proof {
                lemma_keyword_member(ms, "items"@);
                let i = choose|i: int| 0 <= i < ms.len() && #[trigger] ms[i].1 == keyword(ms, "items"@)->0;
                assert(decreases_to!(ms => ms[i]));
                assert(decreases_to!(ms[i] => ms[i].1));
                assert(decreases_to!(ms[i].1 => o));
                assert(decreases_to!(o => o@));
            }
            match property_schema(o@) {
                Ok(p) => Ok(Some(Box::new(p))),
                Err(e) => Err(e),
            }
        },
        _ => Ok(None),
    };
    let props: Result<Option<Seq<(Seq<char>, PropertySchema)>>, Seq<char>> = match keyword(
        ms,
        "properties"@,
    ) {
        Some(JsonValue::Object(o)) => {
            proof {
                lemma_keyword_member(ms, "properties"@);
                let i = choose|i: int|
                    0 <= i < ms.len() && #[trigger] ms[i].1 == keyword(ms, "properties"@)->0;
                assert(decreases_to!(ms => ms[i]));
                assert(decreases_to!(ms[i] => ms[i].1));
                assert(decreases_to!(ms[i].1 => o));
                assert(decreases_to!(o => o@));
            }
            match nested_schemas(o@) {
                Ok(ps) => Ok(Some(ps)),
                Err(e) => Err(e),
            }
        },
        _ => Ok(None),
    };
    let ty: Result<Option<TypeView>, Seq<char>> = match keyword(ms, "type"@) {
        Some(v) => match type_of_value(v) {
            Ok(t) => Ok(Some(t)),
            Err(e) => Err(e),
        },
        None => Ok(None),
    };
    match (items, props, ty) {
        (Err(e), _, _) => Err(e),
        (Ok(_), Err(e), _) => Err(e),
        (Ok(_), Ok(_), Err(e)) => Err(e),
        (Ok(it), Ok(pr), Ok(t)) => Ok(
            PropertySchema {
                ty: t,
                meta: Some(
                    (
                        match keyword(ms, "description"@) {
                            Some(JsonValue::Str(d)) => Some(d@),
                            _ => None,
                        },
                        keyword(ms, "default"@),
                    ),
                ),
                enums: match keyword(ms, "enum"@) {
                    Some(JsonValue::Array(vs)) => Some(vs@),
                    _ => None,
                },
                items: it,
                object: object_part(pr, keyword(ms, "required"@)),
            },
        ),
    }
}

/// The schemas of an object's members, in order: an object member is a
/// property's keywords, any other value its type alone. The first member
/// that fails gives the error.
pub open spec fn nested_schemas(ps: Seq<(String, JsonValue)>) -> Result<
    Seq<(Seq<char>, PropertySchema)>,
    Seq<char>,
>
    decreases ps,
{
    if ps.len() == 0 {
        Ok(Seq::empty())
    } else {
        match nested_schemas(ps.drop_last()) {
            Err(e) => Err(e),
            Ok(acc) => {
                let r = match ps.last().1 {
                    JsonValue::Object(o) => {
                        proof {
                            assert(decreases_to!(ps => ps[ps.len() - 1]));
                            assert(decreases_to!(ps[ps.len() - 1] => ps[ps.len() - 1].1));
                            assert(decreases_to!(ps[ps.len() - 1].1 => o));
                            assert(decreases_to!(o => o@));
                        }
                        property_schema(o@)
                    },
                    v => type_only(v),
                };
                match r {
                    Ok(p) => Ok(acc.push((ps.last().0@, p))),
                    Err(e) => Err(e),
                }
            },
        }
    }
}

/// The view of a type specification.
pub open spec fn type_view(t: TypeSpec) -> TypeView {
    match t {
        TypeSpec::Single(it) => TypeView::Single(it),
        TypeSpec::Many(ts) => TypeView::Many(ts@),
    }
}

/// What a schema object says.
pub open spec fn schema_of(s: SchemaObject) -> PropertySchema
    decreases s,
{
    PropertySchema {
        ty: match s.instance_type {
            Some(t) => Some(type_view(t)),
            None => None,
        },
        meta: match s.metadata {
            Some(m) => Some(
                (
                    match m.description {
                        Some(d) => Some(d@),
                        None => None,
                    },
                    m.default,
                ),
            ),
            None => None,
        },
        enums: match s.enum_values {
            Some(vs) => Some(vs@),
            None => None,
        },
        items: match s.items {
            Some(b) => Some(Box::new(schema_of(*b))),
            None => None,
        },
        object: match s.object {
            Some(ov) => {
                proof {
                    assert(decreases_to!(ov.properties => ov.properties@));
                }
                Some((schemas_of(ov.properties@), ov.required@.map_values(|n: String| n@)))
            },
            None => None,
        },
    }
}

/// What the schema objects of a list of properties say, by name.
pub open spec fn schemas_of(ps: Seq<(String, SchemaObject)>) -> Seq<(Seq<char>, PropertySchema)>
    decreases ps,
{
    if ps.len() == 0 {
        Seq::empty()
    } else {
        proof {
            assert(decreases_to!(ps => ps[ps.len() - 1]));
        }
        schemas_of(ps.drop_last()).push((ps.last().0@, schema_of(ps.last().1)))
    }
}


/// The names of a list of strings.
pub open spec fn names(v: Seq<String>) -> Seq<Seq<char>> {
    v.map_values(|n: String| n@)
}

/// Whether `a` comes before `b` in the order of their characters.
fn chars_less_exec(a: &Vec<char>, b: &Vec<char>) -> (r: bool)
    ensures
        r == chars_less(a@, b@),
{
    let mut i: usize = 0;
    assert(a@.subrange(0, a.len() as int) =~= a@);
    assert(b@.subrange(0, b.len() as int) =~= b@);
    while i < a.len() && i < b.len() && a[i] == b[i]
        invariant
            i <= a.len(),
            i <= b.len(),
            chars_less(a@, b@) == chars_less(
                a@.subrange(i as int, a.len() as int),
                b@.subrange(i as int, b.len() as int),
            ),
        decreases a.len() - i,
    {
        let ghost sa = a@.subrange(i as int, a.len() as int);
        let ghost sb = b@.subrange(i as int, b.len() as int);
        assert(sa.drop_first() =~= a@.subrange(i + 1, a.len() as int));
        assert(sb.drop_first() =~= b@.subrange(i + 1, b.len() as int));
        assert(sa[0] == a@[i as int]);
        assert(sb[0] == b@[i as int]);
        i = i + 1;
    }
    let ghost sa = a@.subrange(i as int, a.len() as int);
    let ghost sb = b@.subrange(i as int, b.len() as int);
    if i == a.len() {
        assert(sa.len() == 0);
        i < b.len()
    } else if i == b.len() {
        false
    } else {
        assert(sa[0] == a@[i as int]);
        assert(sb[0] == b@[i as int]);
        a[i] < b[i]
    }
}

/// Puts a name in its place in a sorted list of distinct names.
fn insert_name(set: &mut Vec<String>, x: String)
    ensures
        names(final(set)@) == insert_sorted(names(old(set)@), x@),
{
    let ghost s = names(set@);
    let xc = to_chars(x.as_str());
    let mut j: usize = 0;
    assert(s.subrange(0, s.len() as int) =~= s);
    assert(s.subrange(0, 0) =~= Seq::<Seq<char>>::empty());
    loop
        invariant
            j <= set.len(),
            s == names(set@),
            s == names(old(set)@),
            xc@ == x@,
            insert_sorted(s, x@) == s.subrange(0, j as int) + insert_sorted(s.subrange(j as int, s.len() as int), x@),
        decreases set.len() - j,
    {
        if j == set.len() {
            assert(s.subrange(j as int, s.len() as int) =~= Seq::<Seq<char>>::empty());
            set.push(x);
            assert(names(set@) =~= s.subrange(0, j as int) + seq![x@]);
            return;
        }
        let ghost rest = s.subrange(j as int, s.len() as int);
        assert(rest[0] == set@[j as int]@);
        if str_eq(set[j].as_str(), x.as_str()) {
            assert(insert_sorted(s, x@) =~= s);
            return;
        }
        let yc = to_chars(set[j].as_str());
        if chars_less_exec(&xc, &yc) {
            set.insert(j, x);
            assert(names(set@) =~= s.subrange(0, j as int) + (seq![x@] + rest));
            return;
        }
        assert(rest.drop_first() =~= s.subrange(j + 1, s.len() as int));
        assert(s.subrange(0, j + 1) =~= s.subrange(0, j as int) + seq![rest[0]]);
        j = j + 1;
    }
}

/// The names as a set: sorted, each once.
pub(crate) fn name_set_exec(xs: Vec<String>) -> (r: Vec<String>)
    ensures
        names(r@) == name_set(names(xs@)),
{
    let mut out: Vec<String> = Vec::new();
    let ghost all = names(xs@);
    let mut rest = xs;
    let ghost mut k: int = 0;
    assert(all.subrange(0, 0) =~= Seq::<Seq<char>>::empty());
    assert(names(out@) =~= Seq::<Seq<char>>::empty());
    while rest.len() > 0
        invariant
            0 <= k <= all.len(),
            all.len() == k + rest.len(),
            names(rest@) == all.subrange(k, all.len() as int),
            names(out@) == name_set(all.subrange(0, k)),
        decreases rest.len(),
    {
        let ghost old_rest = rest@;
        let x = rest.remove(0);
        proof {
            assert(names(old_rest)[0] == x@);
            assert(all.subrange(k, all.len() as int)[0] == all[k]);
            assert(all[k] == x@);
            assert(all.subrange(0, k + 1).drop_last() =~= all.subrange(0, k));
            assert(names(rest@) =~= names(old_rest).subrange(1, old_rest.len() as int));
            assert(names(rest@) =~= all.subrange(k + 1, all.len() as int));
        }
        insert_name(&mut out, x);
        proof {
            k = k + 1;
        }
    }
    assert(all.subrange(0, k) =~= all);
    out
}

/// The strings of a list, in order.
fn string_items_exec(vs: &Vec<JsonValue>) -> (r: Vec<String>)
    ensures
        names(r@) == string_items(vs@),
{
    let mut out: Vec<String> = Vec::new();
    let mut i: usize = 0;
    assert(names(out@) =~= Seq::<Seq<char>>::empty());
    while i < vs.len()
        invariant
            i <= vs.len(),
            names(out@) == string_items(vs@.subrange(0, i as int)),
        decreases vs.len() - i,
    {
        assert(vs@.subrange(0, i + 1).drop_last() =~= vs@.subrange(0, i as int));
        let ghost before = out@;
        match &vs[i] {
            JsonValue::Str(s) => {
                out.push(s.clone());
                assert(names(out@) =~= names(before).push(s@));
            },
            _ => {},
        }
        i = i + 1;
    }
    assert(vs@.subrange(0, vs.len() as int) =~= vs@);
    out
}

/// Converts a `type` value.
fn convert_type(v: JsonValue) -> (r: Result<TypeSpec, String>)
    ensures
        match (r, type_of_value(v)) {
            (Ok(t), Ok(tv)) => type_view(t) == tv,
            (Err(e), Err(m)) => e@ == m,
            _ => false,
        },
{
    match v {
        JsonValue::Str(t) => match single_type(t.as_str()) {
            Some(it) => Ok(TypeSpec::Single(it)),
            None => {
                let mut m: Vec<char> = Vec::new();
                append_str(&mut m, "Unsupported type: ");
                append_str(&mut m, t.as_str());
                Err(from_chars(&m))
            },
        },
        JsonValue::Array(ts) => {
            let types = named_types(&ts);
            if types.len() == 0 {
                Err(from_chars(&to_chars("No valid types found in array")))
            } else {
                Ok(TypeSpec::Many(types))
            }
        },
        _ => Err(from_chars(&to_chars("Invalid type value"))),
    }
}


/// A keyword's value found so far, or still to be found in what is left.
pub open spec fn slot_holds(
    all: Seq<(String, JsonValue)>,
    rest: Seq<(String, JsonValue)>,
    slot: Option<JsonValue>,
    key: Seq<char>,
) -> bool {
    keyword(all, key) == match slot {
        Some(v) => Some(v),
        None => keyword(rest, key),
    }
}

/// An error converting a prefix of an object's members is the error of
/// all of them.
proof fn lemma_nested_error(ps: Seq<(String, JsonValue)>, k: int)
    requires
        0 <= k <= ps.len(),
        nested_schemas(ps.subrange(0, k)) is Err,
    ensures
        nested_schemas(ps) == nested_schemas(ps.subrange(0, k)),
    decreases ps.len() - k,
{
    if k < ps.len() {
        assert(ps.subrange(0, k + 1).drop_last() =~= ps.subrange(0, k));
        lemma_nested_error(ps, k + 1);
    } else {
        assert(ps.subrange(0, k) =~= ps);
    }
}

/// The keywords of a property are distinct names.
proof fn lemma_keywords_distinct()
    ensures
        "description"@ != "default"@,
        "description"@ != "enum"@,
        "description"@ != "items"@,
        "description"@ != "properties"@,
        "description"@ != "required"@,
        "description"@ != "type"@,
        "default"@ != "enum"@,
        "default"@ != "items"@,
        "default"@ != "properties"@,
        "default"@ != "required"@,
        "default"@ != "type"@,
        "enum"@ != "items"@,
        "enum"@ != "properties"@,
        "enum"@ != "required"@,
        "enum"@ != "type"@,
        "items"@ != "properties"@,
        "items"@ != "required"@,
        "items"@ != "type"@,
        "properties"@ != "required"@,
        "properties"@ != "type"@,
        "required"@ != "type"@,
{
    reveal_strlit("description");
    reveal_strlit("default");
    reveal_strlit("enum");
    reveal_strlit("items");
    reveal_strlit("properties");
    reveal_strlit("required");
    reveal_strlit("type");
    assert("description"@[2] != "default"@[2]);
    assert("enum"@[0] != "type"@[0]);
    assert("enum"@.len() != "items"@.len());
    assert("properties"@[0] != "required"@[0]);
}

/// Converts a property's keywords to its schema.
fn convert_property(members: Vec<(String, JsonValue)>) -> (r: Result<SchemaObject, String>)
    ensures
        match (r, property_schema(members@)) {
            (Ok(s), Ok(p)) => schema_of(s) == p,
            (Err(e), Err(m)) => e@ == m,
            _ => false,
        },
    decreases members@,
{
    let ghost all = members@;
    let mut rest = members;
    let mut s_description: Option<JsonValue> = None;
    let mut s_default: Option<JsonValue> = None;
    let mut s_enum: Option<JsonValue> = None;
    let mut s_items: Option<JsonValue> = None;
    let mut s_properties: Option<JsonValue> = None;
    let mut s_required: Option<JsonValue> = None;
    let mut s_type: Option<JsonValue> = None;
    while rest.len() > 0
        invariant
            slot_holds(all, rest@, s_description, "description"@),
            slot_holds(all, rest@, s_default, "default"@),
            slot_holds(all, rest@, s_enum, "enum"@),
            slot_holds(all, rest@, s_items, "items"@),
            slot_holds(all, rest@, s_properties, "properties"@),
            slot_holds(all, rest@, s_required, "required"@),
            slot_holds(all, rest@, s_type, "type"@),
        decreases rest.len(),
    {
        let ghost before = rest@;
        let (k, v) = match rest.pop() {
            Some(m) => m,
            None => (String::new(), JsonValue::Null),
        };
        proof {
            lemma_keywords_distinct();
            assert(before.last() == (k, v));
            assert(before.drop_last() =~= rest@);
        }
        if str_eq(k.as_str(), "description") {
            if s_description.is_none() {
                s_description = Some(v);
            }
        } else if str_eq(k.as_str(), "default") {
            if s_default.is_none() {
                s_default = Some(v);
            }
        } else if str_eq(k.as_str(), "enum") {
            if s_enum.is_none() {
                s_enum = Some(v);
            }
        } else if str_eq(k.as_str(), "items") {
            if s_items.is_none() {
                s_items = Some(v);
            }
        } else if str_eq(k.as_str(), "properties") {
            if s_properties.is_none() {
                s_properties = Some(v);
            }
        } else if str_eq(k.as_str(), "required") {
            if s_required.is_none() {
                s_required = Some(v);
            }
        } else if str_eq(k.as_str(), "type") {
            if s_type.is_none() {
                s_type = Some(v);
            }
        }
    }
    let items: Option<Box<SchemaObject>> = match s_items {
        Some(JsonValue::Object(o)) => {
            proof {
                lemma_keyword_member(all, "items"@);
                let i = choose|i: int| 0 <= i < all.len() && #[trigger] all[i].1 == keyword(all, "items"@)->0;
                assert(decreases_to!(all => all[i]));
                assert(decreases_to!(all[i] => all[i].1));
                assert(decreases_to!(all[i].1 => o));
                assert(decreases_to!(o => o@));
            }
            match convert_property(o) {
                Ok(p) => Some(Box::new(p)),
                Err(e) => {
                    return Err(e);
                },
            }
        },
        _ => None,
    };
    let properties: Option<Vec<(String, SchemaObject)>> = match s_properties {
        Some(JsonValue::Object(o)) => {
            proof {
                lemma_keyword_member(all, "properties"@);
                let i = choose|i: int|
                    0 <= i < all.len() && #[trigger] all[i].1 == keyword(all, "properties"@)->0;
                assert(decreases_to!(all => all[i]));
                assert(decreases_to!(all[i] => all[i].1));
                assert(decreases_to!(all[i].1 => o));
                assert(decreases_to!(o => o@));
            }
            match convert_nested_properties(o) {
                Ok(ps) => Some(ps),
                Err(e) => {
                    return Err(e);
                },
            }
        },
        _ => None,
    };
    let instance_type: Option<TypeSpec> = match s_type {
        Some(v) => match convert_type(v) {
            Ok(t) => Some(t),
            Err(e) => {
                return Err(e);
            },
        },
        None => None,
    };
    let description: Option<String> = match s_description {
        Some(JsonValue::Str(d)) => Some(d),
        _ => None,
    };
    let enum_values: Option<Vec<JsonValue>> = match s_enum {
        Some(JsonValue::Array(vs)) => Some(vs),
        _ => None,
    };
    let object: Option<ObjectValidation> = match s_required {
        Some(JsonValue::Array(vs)) => {
            let required = name_set_exec(string_items_exec(&vs));
            let properties = match properties {
                Some(ps) => ps,
                None => Vec::new(),
            };
            assert(schemas_of(Seq::<(String, SchemaObject)>::empty()) =~= Seq::<(Seq<char>, PropertySchema)>::empty());
            Some(ObjectValidation { properties, required })
        },
        _ => match properties {
            Some(ps) => {
                let required: Vec<String> = Vec::new();
                assert(names(required@) =~= Seq::<Seq<char>>::empty());
                Some(ObjectValidation { properties: ps, required })
            },
            None => None,
        },
    };
    Ok(
        SchemaObject {
            instance_type,
            metadata: Some(SchemaMetadata { description, default: s_default }),
            enum_values,
            object,
            items,
        },
    )
}

/// Converts the members of a `properties` object, in order: an object
/// member by its keywords, any other member as its type alone.
fn convert_nested_properties(props: Vec<(String, JsonValue)>) -> (r: Result<Vec<(String, SchemaObject)>, String>)
    ensures
        match (r, nested_schemas(props@)) {
            (Ok(ps), Ok(vs)) => schemas_of(ps@) == vs,
            (Err(e), Err(m)) => e@ == m,
            _ => false,
        },
    decreases props@,
{
    let ghost all = props@;
    let mut rest = props;
    let mut out: Vec<(String, SchemaObject)> = Vec::new();
    assert(all.subrange(0, 0) =~= Seq::<(String, JsonValue)>::empty());
    while rest.len() > 0
        invariant
            all == props@,
            out.len() + rest.len() == all.len(),
            rest@ == all.subrange(out.len() as int, all.len() as int),
            nested_schemas(all.subrange(0, out.len() as int)) == Ok::<
                Seq<(Seq<char>, PropertySchema)>,
                Seq<char>,
            >(schemas_of(out@)),
        decreases rest.len(),
    {
        let ghost n = out.len() as int;
        let (name, value) = rest.remove(0);
        proof {
            assert(all[n] == (name, value));
            assert(all.subrange(0, n + 1).drop_last() =~= all.subrange(0, n));
            assert(all.subrange(0, n + 1).last() == all[n]);
        }
        let ghost v0 = value;
        let converted = match value {
            JsonValue::Object(o) => {
                proof {
                    assert(decreases_to!(all => all[n]));
                    assert(decreases_to!(all[n] => all[n].1));
                    assert(decreases_to!(all[n].1 => o));
                    assert(decreases_to!(o => o@));
                }
                convert_property(o)
            },
            v => match convert_type(v) {
                Ok(t) => Ok(
                    SchemaObject {
                        instance_type: Some(t),
                        metadata: Some(SchemaMetadata { description: None, default: None }),
                        enum_values: None,
                        object: None,
                        items: None,
                    },
                ),
                Err(e) => Err(e),
            },
        };
        match converted {
            Ok(s) => {
                let ghost before = out@;
                out.push((name, s));
                assert(out@.drop_last() =~= before);
            },
            Err(e) => {
                proof {
                    lemma_nested_error(all, n + 1);
                }
                return Err(e);
            },
        }
    }
    assert(all.subrange(0, out.len() as int) =~= all);
    Ok(out)
}


/// The schemas of a tool's properties, in order; the first property that
/// fails gives the error.
pub open spec fn top_schemas(ps: Seq<(String, Vec<(String, JsonValue)>)>) -> Result<
    Seq<(Seq<char>, PropertySchema)>,
    Seq<char>,
>
    decreases ps.len(),
{
    if ps.len() == 0 {
        Ok(Seq::empty())
    } else {
        match top_schemas(ps.drop_last()) {
            Err(e) => Err(e),
            Ok(acc) => match property_schema(ps.last().1@) {
                Ok(p) => Ok(acc.push((ps.last().0@, p))),
                Err(e) => Err(e),
            },
        }
    }
}

/// The schema a tool's input schema converts to: an object whose
/// properties, when it declares any, are converted and whose required
/// names are then kept as a set.
pub open spec fn input_schema(input: ToolInputSchema) -> Result<PropertySchema, Seq<char>> {
    match input.properties {
        None => Ok(
            PropertySchema {
                ty: Some(TypeView::Single(InstanceType::Object)),
                meta: None,
                enums: None,
                items: None,
                object: None,
            },
        ),
        Some(props) => match top_schemas(props@) {
            Ok(ps) => Ok(
                PropertySchema {
                    ty: Some(TypeView::Single(InstanceType::Object)),
                    meta: None,
                    enums: None,
                    items: None,
                    object: Some(
                        (
                            ps,
                            name_set(
                                names(
                                    match input.required {
                                        Some(r) => r@,
                                        None => Seq::empty(),
                                    },
                                ),
                            ),
                        ),
                    ),
                },
            ),
            Err(e) => Err(e),
        },
    }
}

/// An error converting a prefix of the properties is the error of all.
proof fn lemma_top_error(ps: Seq<(String, Vec<(String, JsonValue)>)>, k: int)
    requires
        0 <= k <= ps.len(),
        top_schemas(ps.subrange(0, k)) is Err,
    ensures
        top_schemas(ps) == top_schemas(ps.subrange(0, k)),
    decreases ps.len() - k,
{
    if k < ps.len() {
        assert(ps.subrange(0, k + 1).drop_last() =~= ps.subrange(0, k));
        lemma_top_error(ps, k + 1);
    } else {
        assert(ps.subrange(0, k) =~= ps);
    }
}

/// Converts a tool's properties in order; the first error stops it.
fn convert_properties(props: Vec<(String, Vec<(String, JsonValue)>)>) -> (r: Result<
    Vec<(String, SchemaObject)>,
    String,
>)
    ensures
        match (r, top_schemas(props@)) {
            (Ok(ps), Ok(vs)) => schemas_of(ps@) == vs,
            (Err(e), Err(m)) => e@ == m,
            _ => false,
        },
{
    let ghost all = props@;
    let mut rest = props;
    let mut out: Vec<(String, SchemaObject)> = Vec::new();
    assert(all.subrange(0, 0) =~= Seq::<(String, Vec<(String, JsonValue)>)>::empty());
    while rest.len() > 0
        invariant
            all == props@,
            out.len() + rest.len() == all.len(),
            rest@ == all.subrange(out.len() as int, all.len() as int),
            top_schemas(all.subrange(0, out.len() as int)) == Ok::<Seq<(Seq<char>, PropertySchema)>, Seq<char>>(
                schemas_of(out@),
            ),
        decreases rest.len(),
    {
        let ghost n = out.len() as int;
        let (name, members) = rest.remove(0);
        proof {
            assert(all[n] == (name, members));
            assert(all.subrange(0, n + 1).drop_last() =~= all.subrange(0, n));
            assert(all.subrange(0, n + 1).last() == all[n]);
        }
        match convert_property(members) {
            Ok(s) => {
                let ghost before = out@;
                out.push((name, s));
                assert(out@.drop_last() =~= before);
            },
            Err(e) => {
                proof {
                    lemma_top_error(all, n + 1);
                }
                return Err(e);
            },
        }
    }
    assert(all.subrange(0, out.len() as int) =~= all);
    Ok(out)
}

/// Converts a tool's input schema to a schema object.
pub fn convert_schema_object(input: ToolInputSchema) -> (r: Result<SchemaObject, String>)
    ensures
        match (r, input_schema(input)) {
            (Ok(s), Ok(p)) => schema_of(s) == p,
            (Err(e), Err(m)) => e@ == m,
            _ => false,
        },
{
    let mut schema = empty_schema();
    schema.instance_type = Some(TypeSpec::Single(InstanceType::Object));
    match input.properties {
        Some(props) => match convert_properties(props) {
            Ok(ps) => {
                let names_given = match input.required {
                    Some(r) => r,
                    None => Vec::new(),
                };
                assert(names(Seq::<String>::empty()) =~= Seq::<Seq<char>>::empty());
                let required = name_set_exec(names_given);
                schema.object = Some(ObjectValidation { properties: ps, required });
            },
            Err(e) => {
                return Err(e);
            },
        },
        None => {},
    }
    Ok(schema)
}

/// Converts a tool's input schema to the schema a chat model is given,
/// under the draft-07 meta-schema.
pub fn convert_to_root_schema(input: ToolInputSchema) -> (r: Result<RootSchema, String>)
    ensures
        match (r, input_schema(input)) {
            (Ok(root), Ok(p)) => (root.meta_schema matches Some(m) && m@ == draft_07()) && schema_of(root.schema)
                == p,
            (Err(e), Err(m)) => e@ == m,
            _ => false,
        },
{
    match convert_schema_object(input) {
        Ok(schema) => Ok(RootSchema { meta_schema: Some(from_chars(&to_chars("http://json-schema.org/draft-07/schema#"))), schema }),
        Err(e) => Err(e),
    }
}

/// A tool as the chat model is told of it, from its name, description and
/// input schema (which must convert).
pub fn parse_tool_info(name: String, description: Option<String>, input: ToolInputSchema) -> (t: ToolInfo)
    requires
        input_schema(input) is Ok,
    ensures
        t.name@ == name@,
        t.description@ == match description {
            Some(d) => d@,
            None => Seq::<char>::empty(),
        },
        t.parameters.meta_schema matches Some(m) && m@ == draft_07(),
        schema_of(t.parameters.schema) == input_schema(input)->Ok_0,
{
    let description = match description {
        Some(d) => d,
        None => String::new(),
    };
    match convert_to_root_schema(input) {
        Ok(parameters) => ToolInfo { name, description, parameters },
        Err(_) => {
            proof {
                assert(false);
            }
            ToolInfo { name, description, parameters: RootSchema { meta_schema: None, schema: empty_schema() } }
        },
    }
}

} // verus!
