//! Schema validation: a declarative schema type (expected type, required
//! members, per-member sub-schemas, an element schema for arrays), the spec
//! function `conforms` saying when a document satisfies a schema, and a
//! checker returning either success or a truthful diagnostic. Unknown extra
//! members are accepted; the schema constrains only what it names.

use vstd::prelude::*;
use vstd::string::*;
use crate::json::Json;
use crate::text::push_char;

verus! {

/// The type a schema expects at one position. `Any` places no constraint.
#[derive(Debug, Clone, Copy, PartialEq, Eq, Structural)]
pub enum SchemaType {
    Any,
    Null,
    Boolean,
    Number,
    Integer,
    Text,
    Array,
    Object,
}

/// A schema node: the expected type, the members an object must carry, the
/// sub-schemas of named members, and the schema of array elements.
#[derive(Debug)]
pub struct Schema {
    pub ty: SchemaType,
    pub required: Vec<String>,
    pub properties: Vec<(String, Schema)>,
    pub items: Option<Box<Schema>>,
}

/// A number literal denotes an integer when it has no fraction or exponent.
pub open spec fn is_integer_literal(t: Seq<char>) -> bool {
    forall|i: int| 0 <= i < t.len() ==> !(#[trigger] t[i] == '.' || t[i] == 'e' || t[i] == 'E')
}

/// Whether a document value has the type a schema expects.
pub open spec fn type_matches(d: Json, t: SchemaType) -> bool {
    match t {
        SchemaType::Any => true,
        SchemaType::Null => d is Null,
        SchemaType::Boolean => d is Bool,
        SchemaType::Number => d is Num,
        SchemaType::Integer => d is Num && is_integer_literal(d->Num_0@),
        SchemaType::Text => d is Text,
        SchemaType::Array => d is Arr,
        SchemaType::Object => d is Obj,
    }
}

/// The value of the first member with the given name, if any.
pub open spec fn lookup(fs: Seq<(String, Json)>, k: Seq<char>) -> Option<Json>
    decreases fs.len(),
{
    if fs.len() == 0 {
        None
    } else if fs[0].0@ == k {
        Some(fs[0].1)
    } else {
        lookup(fs.drop_first(), k)
    }
}

/// The sub-schema of the first property with the given name, if any.
pub open spec fn schema_lookup(props: Seq<(String, Schema)>, k: Seq<char>) -> Option<Schema>
    decreases props.len(),
{
    if props.len() == 0 {
        None
    } else if props[0].0@ == k {
        Some(props[0].1)
    } else {
        schema_lookup(props.drop_first(), k)
    }
}

/// Whether a name stands in a list of required member names.
pub open spec fn req_has(req: Seq<String>, f: Seq<char>) -> bool {
    exists|i: int| 0 <= i < req.len() && #[trigger] req[i]@ == f
}

/// Every required member is present among the object's members.
pub open spec fn required_present(fs: Seq<(String, Json)>, req: Seq<String>) -> bool
    decreases req.len(),
{
    if req.len() == 0 {
        true
    } else {
        lookup(fs, req[0]@) is Some && required_present(fs, req.drop_first())
    }
}

/// Every member whose name has a sub-schema conforms to that sub-schema.
pub open spec fn fields_conform(fs: Seq<(String, Json)>, props: Seq<(String, Schema)>) -> bool
    decreases fs,
{
    if fs.len() == 0 {
        true
    } else {
        (match schema_lookup(props, fs[0].0@) {
            Some(sub) => conforms(fs[0].1, sub),
            None => true,
        }) && fields_conform(fs.drop_first(), props)
    }
}

/// Every array element conforms to the element schema.
pub open spec fn items_conform(es: Seq<Json>, sub: Schema) -> bool
    decreases es,
{
    if es.len() == 0 {
        true
    } else {
        conforms(es[0], sub) && items_conform(es.drop_first(), sub)
    }
}

/// A document satisfies a schema: its type matches; if it is an object, the
/// required members are present and each named member satisfies its
/// sub-schema; if it is an array with an element schema, every element
/// satisfies it. Members and elements the schema does not name are free.
pub open spec fn conforms(d: Json, s: Schema) -> bool
    decreases d,
{
    &&& type_matches(d, s.ty)
    &&& (d is Obj ==> required_present(d->Obj_0@, s.required@) && fields_conform(
        d->Obj_0@,
        s.properties@,
    ))
    &&& (match s.items {
        Some(sub) => d is Arr ==> items_conform(d->Arr_0@, *sub),
        None => true,
    })
}

/// A failed check: what was violated, the member or type concerned, and the
/// dotted path of the enclosing object (empty at the root).
#[derive(Debug)]
pub enum Violation {
    MissingField { path: String, field: String },
    WrongType { path: String, expected: SchemaType },
}

/// The violation's claim, read at one position of the document.
pub open spec fn violation_at(e: Violation, d: Json, s: Schema) -> bool {
    match e {
        Violation::MissingField { path: _, field } => d is Obj && req_has(s.required@, field@)
            && lookup(d->Obj_0@, field@) is None,
        Violation::WrongType { path: _, expected } => expected == s.ty && !type_matches(d, s.ty),
    }
}

/// The violation's claim holds somewhere in a member named by the schema.
pub open spec fn witnessed_in_fields(
    e: Violation,
    fs: Seq<(String, Json)>,
    props: Seq<(String, Schema)>,
) -> bool
    decreases fs,
{
    if fs.len() == 0 {
        false
    } else {
        (match schema_lookup(props, fs[0].0@) {
            Some(sub) => violation_witnessed(e, fs[0].1, sub),
            None => false,
        }) || witnessed_in_fields(e, fs.drop_first(), props)
    }
}

/// The violation's claim holds somewhere in an array element.
pub open spec fn witnessed_in_items(e: Violation, es: Seq<Json>, sub: Schema) -> bool
    decreases es,
{
    if es.len() == 0 {
        false
    } else {
        violation_witnessed(e, es[0], sub) || witnessed_in_items(e, es.drop_first(), sub)
    }
}

/// The violation's claim holds at the document's root or at some position
/// the schema reaches: the diagnostic reports a real defect.
pub open spec fn violation_witnessed(e: Violation, d: Json, s: Schema) -> bool
    decreases d,
{
    ||| violation_at(e, d, s)
    ||| (d is Obj && witnessed_in_fields(e, d->Obj_0@, s.properties@))
    ||| (match s.items {
        Some(sub) => d is Arr && witnessed_in_items(e, d->Arr_0@, *sub),
        None => false,
    })
}

fn integer_literal(s: &str) -> (r: bool)
    ensures
        r == is_integer_literal(s@),
{
    let n = s.unicode_len();
    let mut i: usize = 0;
    while i < n
        invariant
            i <= n,
            n == s@.len(),
            forall|j: int| 0 <= j < i ==> !(#[trigger] s@[j] == '.' || s@[j] == 'e' || s@[j]
                == 'E'),
        decreases n - i,
    {
        let c = s.get_char(i);
        if c == '.' || c == 'e' || c == 'E' {
            return false;
        }
        i = i + 1;
    }
    true
}

fn check_type(d: &Json, t: SchemaType) -> (r: bool)
    ensures
        r == type_matches(*d, t),
{
    match t {
        SchemaType::Any => true,
        SchemaType::Null => matches!(d, Json::Null),
        SchemaType::Boolean => matches!(d, Json::Bool(_)),
        SchemaType::Number => matches!(d, Json::Num(_)),
        SchemaType::Integer => match d {
            Json::Num(x) => integer_literal(x.as_str()),
            _ => false,
        },
        SchemaType::Text => matches!(d, Json::Text(_)),
        SchemaType::Array => matches!(d, Json::Arr(_)),
        SchemaType::Object => matches!(d, Json::Obj(_)),
    }
}

/// Finds the first member with the given name.
fn find_field(fs: &Vec<(String, Json)>, k: &String) -> (r: Option<usize>)
    ensures
        match r {
            Some(j) => j < fs@.len() && fs@[j as int].0@ == k@ && lookup(fs@, k@) == Some(
                fs@[j as int].1,
            ),
            None => lookup(fs@, k@) is None,
        },
{
    let n = fs.len();
    let mut i: usize = 0;
    proof {
        assert(fs@.subrange(0, n as int) =~= fs@);
    }
    while i < n
        invariant
            i <= n,
            n == fs@.len(),
            lookup(fs@, k@) == lookup(fs@.subrange(i as int, n as int), k@),
        decreases n - i,
    {
        proof {
            let tail = fs@.subrange(i as int, n as int);
            assert(tail[0] == fs@[i as int]);
            assert(tail.drop_first() =~= fs@.subrange(i as int + 1, n as int));
        }
        if fs[i].0.eq(k) {
            return Some(i);
        }
        i = i + 1;
    }
    proof {
        assert(fs@.subrange(n as int, n as int) =~= Seq::<(String, Json)>::empty());
    }
    None
}

/// Finds the first property with the given name.
fn find_property<'a>(props: &'a Vec<(String, Schema)>, k: &String) -> (r: Option<&'a Schema>)
    ensures
        match r {
            Some(sub) => schema_lookup(props@, k@) == Some(*sub),
            None => schema_lookup(props@, k@) is None,
        },
{
    let n = props.len();
    let mut i: usize = 0;
    proof {
        assert(props@.subrange(0, n as int) =~= props@);
    }
    while i < n
        invariant
            i <= n,
            n == props@.len(),
            schema_lookup(props@, k@) == schema_lookup(props@.subrange(i as int, n as int), k@),
        decreases n - i,
    {
        proof {
            let tail = props@.subrange(i as int, n as int);
            assert(tail[0] == props@[i as int]);
            assert(tail.drop_first() =~= props@.subrange(i as int + 1, n as int));
        }
        if props[i].0.eq(k) {
            return Some(&props[i].1);
        }
        i = i + 1;
    }
    proof {
        assert(props@.subrange(n as int, n as int) =~= Seq::<(String, Schema)>::empty());
    }
    None
}

proof fn lemma_required_present(fs: Seq<(String, Json)>, req: Seq<String>)
    requires
        forall|j: int| 0 <= j < req.len() ==> lookup(fs, #[trigger] req[j]@) is Some,
    ensures
        required_present(fs, req),
    decreases req.len(),
{
    if req.len() > 0 {
        assert(lookup(fs, req[0]@) is Some);
        assert(forall|j: int| 0 <= j < req.drop_first().len() ==> lookup(
            fs,
            #[trigger] req.drop_first()[j]@,
        ) is Some) by {
            assert(forall|j: int| 0 <= j < req.drop_first().len() ==> req.drop_first()[j]
                == req[j + 1]);
        }
        lemma_required_present(fs, req.drop_first());
    }
}

proof fn lemma_required_missing(fs: Seq<(String, Json)>, req: Seq<String>, j: int)
    requires
        0 <= j < req.len(),
        lookup(fs, req[j]@) is None,
    ensures
        !required_present(fs, req),
    decreases j,
{
    if j > 0 {
        assert(req.drop_first()[j - 1] == req[j]);
        lemma_required_missing(fs, req.drop_first(), j - 1);
    }
}

proof fn lemma_fields_conform(fs: Seq<(String, Json)>, props: Seq<(String, Schema)>)
    requires
        forall|j: int| 0 <= j < fs.len() ==> (match schema_lookup(props, (#[trigger] fs[j]).0@) {
            Some(sub) => conforms(fs[j].1, sub),
            None => true,
        }),
    ensures
        fields_conform(fs, props),
    decreases fs.len(),
{
    if fs.len() > 0 {
        assert(forall|j: int| 0 <= j < fs.drop_first().len() ==> fs.drop_first()[j] == fs[j + 1]);
        lemma_fields_conform(fs.drop_first(), props);
    }
}

proof fn lemma_fields_violation(fs: Seq<(String, Json)>, props: Seq<(String, Schema)>, j: int)
    requires
        0 <= j < fs.len(),
        match schema_lookup(props, fs[j].0@) {
            Some(sub) => !conforms(fs[j].1, sub),
            None => false,
        },
    ensures
        !fields_conform(fs, props),
    decreases j,
{
    if j > 0 {
        assert(fs.drop_first()[j - 1] == fs[j]);
        lemma_fields_violation(fs.drop_first(), props, j - 1);
    }
}

proof fn lemma_fields_witnessed(
    e: Violation,
    fs: Seq<(String, Json)>,
    props: Seq<(String, Schema)>,
    j: int,
)
    requires
        0 <= j < fs.len(),
        match schema_lookup(props, fs[j].0@) {
            Some(sub) => violation_witnessed(e, fs[j].1, sub),
            None => false,
        },
    ensures
        witnessed_in_fields(e, fs, props),
    decreases j,
{
    if j > 0 {
        assert(fs.drop_first()[j - 1] == fs[j]);
        lemma_fields_witnessed(e, fs.drop_first(), props, j - 1);
    }
}

proof fn lemma_items_conform(es: Seq<Json>, sub: Schema)
    requires
        forall|j: int| 0 <= j < es.len() ==> conforms(#[trigger] es[j], sub),
    ensures
        items_conform(es, sub),
    decreases es.len(),
{
    if es.len() > 0 {
        assert(forall|j: int| 0 <= j < es.drop_first().len() ==> es.drop_first()[j] == es[j + 1]);
        lemma_items_conform(es.drop_first(), sub);
    }
}

proof fn lemma_items_violation(es: Seq<Json>, sub: Schema, j: int)
    requires
        0 <= j < es.len(),
        !conforms(es[j], sub),
    ensures
        !items_conform(es, sub),
    decreases j,
{
    if j > 0 {
        assert(es.drop_first()[j - 1] == es[j]);
        lemma_items_violation(es.drop_first(), sub, j - 1);
    }
}

proof fn lemma_items_witnessed(e: Violation, es: Seq<Json>, sub: Schema, j: int)
    requires
        0 <= j < es.len(),
        violation_witnessed(e, es[j], sub),
    ensures
        witnessed_in_items(e, es, sub),
    decreases j,
{
    if j > 0 {
        assert(es.drop_first()[j - 1] == es[j]);
        lemma_items_witnessed(e, es.drop_first(), sub, j - 1);
    }
}

/// Extends a dotted path with a member name.
fn join_path(path: &String, key: &String) -> (r: String)
    ensures
        r@ == if path@.len() == 0 {
            key@
        } else {
            path@ + seq!['.'] + key@
        },
{
    if path.as_str().is_empty() {
        key.clone()
    } else {
        let mut r = path.clone();
        push_char(&mut r, '.');
        r.append(key.as_str());
        r
    }
}

fn validate_required(fs: &Vec<(String, Json)>, req: &Vec<String>, path: &String) -> (r: Result<
    (),
    Violation,
>)
    ensures
        r is Ok <==> required_present(fs@, req@),
        r matches Err(e) ==> (e matches Violation::MissingField { path: _, field } && req_has(
            req@,
            field@,
        ) && lookup(fs@, field@) is None),
{
    let n = req.len();
    let mut i: usize = 0;
    while i < n
        invariant
            i <= n,
            n == req@.len(),
            forall|j: int| 0 <= j < i ==> lookup(fs@, #[trigger] req@[j]@) is Some,
        decreases n - i,
    {
        match find_field(fs, &req[i]) {
            Some(_) => {},
            None => {
                proof {
                    lemma_required_missing(fs@, req@, i as int);
                }
                return Err(
                    Violation::MissingField { path: path.clone(), field: req[i].clone() },
                );
            },
        }
        i = i + 1;
    }
    proof {
        lemma_required_present(fs@, req@);
    }
    Ok(())
}

fn validate_fields(fs: &Vec<(String, Json)>, props: &Vec<(String, Schema)>, path: &String) -> (r:
    Result<(), Violation>)
    ensures
        r is Ok <==> fields_conform(fs@, props@),
        r matches Err(e) ==> witnessed_in_fields(e, fs@, props@),
    decreases fs@, 1int,
{
    let n = fs.len();
    let mut i: usize = 0;
    while i < n
        invariant
            i <= n,
            n == fs@.len(),
            forall|j: int| 0 <= j < i ==> (match schema_lookup(props@, (#[trigger] fs@[j]).0@) {
                Some(sub) => conforms(fs@[j].1, sub),
                None => true,
            }),
        decreases n - i,
    {
        match find_property(props, &fs[i].0) {
            Some(sub) => {
                let child = join_path(path, &fs[i].0);
                proof {
                    assert(decreases_to!(fs@ => fs@[i as int]));
                    assert(decreases_to!(fs@[i as int] => fs@[i as int].1));
                }
                match validate_at(&fs[i].1, sub, &child) {
                    Ok(()) => {},
                    Err(e) => {
                        proof {
                            lemma_fields_violation(fs@, props@, i as int);
                            lemma_fields_witnessed(e, fs@, props@, i as int);
                        }
                        return Err(e);
                    },
                }
            },
            None => {},
        }
        i = i + 1;
    }
    proof {
        lemma_fields_conform(fs@, props@);
    }
    Ok(())
}

fn validate_items(es: &Vec<Json>, sub: &Schema, path: &String) -> (r: Result<(), Violation>)
    ensures
        r is Ok <==> items_conform(es@, *sub),
        r matches Err(e) ==> witnessed_in_items(e, es@, *sub),
    decreases es@, 1int,
{
    let n = es.len();
    let mut i: usize = 0;
    while i < n
        invariant
            i <= n,
            n == es@.len(),
            forall|j: int| 0 <= j < i ==> conforms(#[trigger] es@[j], *sub),
        decreases n - i,
    {
        proof {
            assert(decreases_to!(es@ => es@[i as int]));
        }
        match validate_at(&es[i], sub, path) {
            Ok(()) => {},
            Err(e) => {
                proof {
                    lemma_items_violation(es@, *sub, i as int);
                    lemma_items_witnessed(e, es@, *sub, i as int);
                }
                return Err(e);
            },
        }
        i = i + 1;
    }
    proof {
        lemma_items_conform(es@, *sub);
    }
    Ok(())
}

fn validate_at(d: &Json, s: &Schema, path: &String) -> (r: Result<(), Violation>)
    ensures
        r is Ok <==> conforms(*d, *s),
        r matches Err(e) ==> violation_witnessed(e, *d, *s),
    decreases *d, 2int,
{
    if !check_type(d, s.ty) {
        return Err(Violation::WrongType { path: path.clone(), expected: s.ty });
    }
    match d {
        Json::Obj(fs) => {
            match validate_required(fs, &s.required, path) {
                Ok(()) => {},
                Err(e) => {
                    return Err(e);
                },
            }
            proof {
                assert(decreases_to!(*d => (*d)->Obj_0));
                assert((*d)->Obj_0 == *fs);
                assert(decreases_to!(*fs => fs@));
            }
            match validate_fields(fs, &s.properties, path) {
                Ok(()) => {},
                Err(e) => {
                    return Err(e);
                },
            }
            Ok(())
        },
        Json::Arr(es) => {
            match &s.items {
                Some(sub) => {
                    proof {
                        assert(decreases_to!(*d => (*d)->Arr_0));
                        assert((*d)->Arr_0 == *es);
                        assert(decreases_to!(*es => es@));
                    }
                    match validate_items(es, sub, path) {
                        Ok(()) => Ok(()),
                        Err(e) => {
                            return Err(e);
                        },
                    }
                },
                None => Ok(()),
            }
        },
        _ => Ok(()),
    }
}

/// A document that is an object but lacks a member the schema requires does
/// not conform, whatever the rest of it holds.
pub proof fn lemma_missing_required_rejected(d: Json, s: Schema, f: Seq<char>)
    requires
        d is Obj,
        req_has(s.required@, f),
        lookup(d->Obj_0@, f) is None,
    ensures
        !conforms(d, s),
{
    let i = choose|i: int| 0 <= i < s.required@.len() && s.required@[i]@ == f;
    lemma_required_missing(d->Obj_0@, s.required@, i);
}

/// The name of a schema type as diagnostics spell it.
pub open spec fn type_label(t: SchemaType) -> Seq<char> {
    match t {
        SchemaType::Any => "any"@,
        SchemaType::Null => "null"@,
        SchemaType::Boolean => "boolean"@,
        SchemaType::Number => "number"@,
        SchemaType::Integer => "integer"@,
        SchemaType::Text => "string"@,
        SchemaType::Array => "array"@,
        SchemaType::Object => "object"@,
    }
}

impl SchemaType {
    /// The name used in diagnostics.
    pub fn name(&self) -> (r: &'static str)
        ensures
            r@ == type_label(*self),
    {
        match self {
            SchemaType::Any => "any",
            SchemaType::Null => "null",
            SchemaType::Boolean => "boolean",
            SchemaType::Number => "number",
            SchemaType::Integer => "integer",
            SchemaType::Text => "string",
            SchemaType::Array => "array",
            SchemaType::Object => "object",
        }
    }
}

/// A path as diagnostics spell it: the dotted member path, or the document
/// root.
pub open spec fn place(p: Seq<char>) -> Seq<char> {
    if p.len() == 0 {
        "document root"@
    } else {
        p
    }
}

/// The diagnostic line for a violation.
pub open spec fn violation_text(e: Violation) -> Seq<char> {
    match e {
        Violation::MissingField { path, field } => "missing required member \""@ + field@
            + "\" at "@ + place(path@),
        Violation::WrongType { path, expected } => "value does not have expected type "@
            + type_label(expected) + " at "@ + place(path@),
    }
}

fn place_text(path: &String) -> (r: String)
    ensures
        r@ == place(path@),
{
    if path.as_str().is_empty() {
        String::from_str("document root")
    } else {
        path.clone()
    }
}

impl Violation {
    /// The human-readable diagnostic for this violation.
    pub fn describe(&self) -> (r: String)
        ensures
            r@ == violation_text(*self),
    {
        match self {
            Violation::MissingField { path, field } => {
                let mut r = String::from_str("missing required member \"");
                r.append(field.as_str());
                r.append("\" at ");
                let p = place_text(path);
                r.append(p.as_str());
                r
            },
            Violation::WrongType { path, expected } => {
                let mut r = String::from_str("value does not have expected type ");
                r.append(expected.name());
                r.append(" at ");
                let p = place_text(path);
                r.append(p.as_str());
                r
            },
        }
    }
}

/// Checks a document against a schema. Success means exactly that the
/// document conforms; a failure carries a diagnostic whose claim really
/// holds of the document.
pub fn validate(d: &Json, s: &Schema) -> (r: Result<(), Violation>)
    ensures
        r is Ok <==> conforms(*d, *s),
        r matches Err(e) ==> violation_witnessed(e, *d, *s),
{
    let root = String::new();
    validate_at(d, s, &root)
}

} // verus!
