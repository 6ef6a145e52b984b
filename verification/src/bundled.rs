//! The fixed schema a CV document is checked against, and the example
//! document that initialization writes. Spec predicates pin both down
//! exactly, and a proof shows that the example conforms to the schema.

use vstd::prelude::*;
use vstd::string::*;
use crate::json::{escaped_char, lemma_escaped_plain, rendered, rendered_field, rendered_fields,
    rendered_items, Json};
use crate::schema::{Schema, SchemaType, conforms, fields_conform, items_conform, lookup,
    required_present, schema_lookup, type_matches};

verus! {

/// A schema node that asks for a string and nothing else.
pub open spec fn is_text_schema(s: Schema) -> bool {
    &&& s.ty == SchemaType::Text
    &&& s.required@.len() == 0
    &&& s.properties@.len() == 0
    &&& s.items is None
}

/// The schema of the `basics` section: an object that must carry `name`
/// and `email`, both strings.
pub open spec fn is_basics_schema(s: Schema) -> bool {
    &&& s.ty == SchemaType::Object
    &&& s.required@.len() == 2
    &&& s.required@[0]@ == "name"@
    &&& s.required@[1]@ == "email"@
    &&& s.properties@.len() == 2
    &&& s.properties@[0].0@ == "name"@
    &&& is_text_schema(s.properties@[0].1)
    &&& s.properties@[1].0@ == "email"@
    &&& is_text_schema(s.properties@[1].1)
    &&& s.items is None
}

/// The schema of one entry of the `work` section: an object that must
/// carry `company`; `company` and `position` are strings.
pub open spec fn is_job_schema(s: Schema) -> bool {
    &&& s.ty == SchemaType::Object
    &&& s.required@.len() == 1
    &&& s.required@[0]@ == "company"@
    &&& s.properties@.len() == 2
    &&& s.properties@[0].0@ == "company"@
    &&& is_text_schema(s.properties@[0].1)
    &&& s.properties@[1].0@ == "position"@
    &&& is_text_schema(s.properties@[1].1)
    &&& s.items is None
}

/// The schema of the `work` section: an array of job entries.
pub open spec fn is_work_schema(s: Schema) -> bool {
    &&& s.ty == SchemaType::Array
    &&& s.required@.len() == 0
    &&& s.properties@.len() == 0
    &&& (s.items matches Some(sub) && is_job_schema(*sub))
}

/// The schema of the `skills` section: an array of strings.
pub open spec fn is_skills_schema(s: Schema) -> bool {
    &&& s.ty == SchemaType::Array
    &&& s.required@.len() == 0
    &&& s.properties@.len() == 0
    &&& (s.items matches Some(sub) && is_text_schema(*sub))
}

/// The bundled schema: a CV document is an object that must carry a
/// `basics` section; `basics`, `work` and `skills` are constrained as
/// above, anything else is free.
pub open spec fn is_default_schema(s: Schema) -> bool {
    &&& s.ty == SchemaType::Object
    &&& s.required@.len() == 1
    &&& s.required@[0]@ == "basics"@
    &&& s.properties@.len() == 3
    &&& s.properties@[0].0@ == "basics"@
    &&& is_basics_schema(s.properties@[0].1)
    &&& s.properties@[1].0@ == "work"@
    &&& is_work_schema(s.properties@[1].1)
    &&& s.properties@[2].0@ == "skills"@
    &&& is_skills_schema(s.properties@[2].1)
    &&& s.items is None
}

/// The bundled example document, member by member.
pub open spec fn is_template(d: Json) -> bool {
    &&& d is Obj
    &&& d->Obj_0@.len() == 3
    &&& d->Obj_0@[0].0@ == "basics"@
    &&& is_template_basics(d->Obj_0@[0].1)
    &&& d->Obj_0@[1].0@ == "work"@
    &&& is_template_work(d->Obj_0@[1].1)
    &&& d->Obj_0@[2].0@ == "skills"@
    &&& is_template_skills(d->Obj_0@[2].1)
}

/// The example's `basics` section.
pub open spec fn is_template_basics(d: Json) -> bool {
    &&& d is Obj
    &&& d->Obj_0@.len() == 2
    &&& d->Obj_0@[0].0@ == "name"@
    &&& (d->Obj_0@[0].1 matches Json::Text(t) && t@ == "Alice Doe"@)
    &&& d->Obj_0@[1].0@ == "email"@
    &&& (d->Obj_0@[1].1 matches Json::Text(t) && t@ == "alice@example.com"@)
}

/// The example's `work` section.
pub open spec fn is_template_work(d: Json) -> bool {
    &&& d is Arr
    &&& d->Arr_0@.len() == 1
    &&& is_template_job(d->Arr_0@[0])
}

/// The example's single work entry.
pub open spec fn is_template_job(d: Json) -> bool {
    &&& d is Obj
    &&& d->Obj_0@.len() == 2
    &&& d->Obj_0@[0].0@ == "company"@
    &&& (d->Obj_0@[0].1 matches Json::Text(t) && t@ == "Example Labs"@)
    &&& d->Obj_0@[1].0@ == "position"@
    &&& (d->Obj_0@[1].1 matches Json::Text(t) && t@ == "Engineer"@)
}

/// The example's `skills` section.
pub open spec fn is_template_skills(d: Json) -> bool {
    &&& d is Arr
    &&& d->Arr_0@.len() == 1
    &&& (d->Arr_0@[0] matches Json::Text(t) && t@ == "Rust"@)
}

fn text_schema() -> (s: Schema)
    ensures
        is_text_schema(s),
{
    Schema { ty: SchemaType::Text, required: Vec::new(), properties: Vec::new(), items: None }
}

fn basics_schema() -> (s: Schema)
    ensures
        is_basics_schema(s),
{
    let mut required: Vec<String> = Vec::new();
    required.push(String::from_str("name"));
    required.push(String::from_str("email"));
    let mut properties: Vec<(String, Schema)> = Vec::new();
    properties.push((String::from_str("name"), text_schema()));
    properties.push((String::from_str("email"), text_schema()));
    Schema { ty: SchemaType::Object, required, properties, items: None }
}

fn job_schema() -> (s: Schema)
    ensures
        is_job_schema(s),
{
    let mut required: Vec<String> = Vec::new();
    required.push(String::from_str("company"));
    let mut properties: Vec<(String, Schema)> = Vec::new();
    properties.push((String::from_str("company"), text_schema()));
    properties.push((String::from_str("position"), text_schema()));
    Schema { ty: SchemaType::Object, required, properties, items: None }
}

fn work_schema() -> (s: Schema)
    ensures
        is_work_schema(s),
{
    Schema {
        ty: SchemaType::Array,
        required: Vec::new(),
        properties: Vec::new(),
        items: Some(Box::new(job_schema())),
    }
}

fn skills_schema() -> (s: Schema)
    ensures
        is_skills_schema(s),
{
    Schema {
        ty: SchemaType::Array,
        required: Vec::new(),
        properties: Vec::new(),
        items: Some(Box::new(text_schema())),
    }
}

/// Builds the bundled schema.
pub fn default_schema() -> (s: Schema)
    ensures
        is_default_schema(s),
{
    let mut required: Vec<String> = Vec::new();
    required.push(String::from_str("basics"));
    let mut properties: Vec<(String, Schema)> = Vec::new();
    properties.push((String::from_str("basics"), basics_schema()));
    properties.push((String::from_str("work"), work_schema()));
    properties.push((String::from_str("skills"), skills_schema()));
    Schema { ty: SchemaType::Object, required, properties, items: None }
}

/// Builds the bundled example document.
pub fn template_document() -> (d: Json)
    ensures
        is_template(d),
{
    let mut basics: Vec<(String, Json)> = Vec::new();
    basics.push((String::from_str("name"), Json::Text(String::from_str("Alice Doe"))));
    basics.push((String::from_str("email"), Json::Text(String::from_str("alice@example.com"))));
    let mut job: Vec<(String, Json)> = Vec::new();
    job.push((String::from_str("company"), Json::Text(String::from_str("Example Labs"))));
    job.push((String::from_str("position"), Json::Text(String::from_str("Engineer"))));
    let mut work: Vec<Json> = Vec::new();
    work.push(Json::Obj(job));
    let mut skills: Vec<Json> = Vec::new();
    skills.push(Json::Text(String::from_str("Rust")));
    let mut fields: Vec<(String, Json)> = Vec::new();
    fields.push((String::from_str("basics"), Json::Obj(basics)));
    fields.push((String::from_str("work"), Json::Arr(work)));
    fields.push((String::from_str("skills"), Json::Arr(skills)));
    Json::Obj(fields)
}

/// The exact text the example document serializes to.
pub open spec fn template_text() -> Seq<char> {
    "{\"basics\":{\"name\":\"Alice Doe\",\"email\":\"alice@example.com\"},\"work\":[{\"company\":\"Example Labs\",\"position\":\"Engineer\"}],\"skills\":[\"Rust\"]}"@
}

proof fn lemma_basics_text(d: Json)
    requires
        is_template_basics(d),
    ensures
        rendered(d) == "{\"name\":\"Alice Doe\",\"email\":\"alice@example.com\"}"@,
{
    let fs = d->Obj_0@;
    reveal_strlit("name");
    assert(forall|i: int| 0 <= i < "name"@.len() ==> escaped_char(#[trigger] "name"@[i])
        == seq!["name"@[i]]);
    lemma_escaped_plain("name"@);
    reveal_strlit("email");
    assert(forall|i: int| 0 <= i < "email"@.len() ==> escaped_char(#[trigger] "email"@[i])
        == seq!["email"@[i]]);
    lemma_escaped_plain("email"@);
    reveal_strlit("Alice Doe");
    assert(forall|i: int| 0 <= i < "Alice Doe"@.len() ==> escaped_char(#[trigger] "Alice Doe"@[i])
        == seq!["Alice Doe"@[i]]);
    lemma_escaped_plain("Alice Doe"@);
    reveal_strlit("alice@example.com");
    assert(forall|i: int| 0 <= i < "alice@example.com"@.len() ==> escaped_char(
        #[trigger] "alice@example.com"@[i],
    ) == seq!["alice@example.com"@[i]]);
    lemma_escaped_plain("alice@example.com"@);
    assert(fs.drop_last().last() == fs[0]);
    assert(fs.drop_last().len() == 1);
    assert(rendered_fields(fs.drop_last()) == rendered_field(fs[0]));
    assert(rendered_fields(fs) == rendered_field(fs[0]) + seq![','] + rendered_field(fs[1]));
    reveal_strlit("{\"name\":\"Alice Doe\",\"email\":\"alice@example.com\"}");
    assert(rendered(d) =~= "{\"name\":\"Alice Doe\",\"email\":\"alice@example.com\"}"@);
}

proof fn lemma_job_text(d: Json)
    requires
        is_template_job(d),
    ensures
        rendered(d) == "{\"company\":\"Example Labs\",\"position\":\"Engineer\"}"@,
{
    let fs = d->Obj_0@;
    reveal_strlit("company");
    assert(forall|i: int| 0 <= i < "company"@.len() ==> escaped_char(#[trigger] "company"@[i])
        == seq!["company"@[i]]);
    lemma_escaped_plain("company"@);
    reveal_strlit("position");
    assert(forall|i: int| 0 <= i < "position"@.len() ==> escaped_char(#[trigger] "position"@[i])
        == seq!["position"@[i]]);
    lemma_escaped_plain("position"@);
    reveal_strlit("Example Labs");
    assert(forall|i: int| 0 <= i < "Example Labs"@.len() ==> escaped_char(
        #[trigger] "Example Labs"@[i],
    ) == seq!["Example Labs"@[i]]);
    lemma_escaped_plain("Example Labs"@);
    reveal_strlit("Engineer");
    assert(forall|i: int| 0 <= i < "Engineer"@.len() ==> escaped_char(#[trigger] "Engineer"@[i])
        == seq!["Engineer"@[i]]);
    lemma_escaped_plain("Engineer"@);
    assert(fs.drop_last().last() == fs[0]);
    assert(fs.drop_last().len() == 1);
    assert(rendered_fields(fs.drop_last()) == rendered_field(fs[0]));
    assert(rendered_fields(fs) == rendered_field(fs[0]) + seq![','] + rendered_field(fs[1]));
    reveal_strlit("{\"company\":\"Example Labs\",\"position\":\"Engineer\"}");
    assert(rendered(d) =~= "{\"company\":\"Example Labs\",\"position\":\"Engineer\"}"@);
}

proof fn lemma_work_text(d: Json)
    requires
        is_template_work(d),
    ensures
        rendered(d) == "[{\"company\":\"Example Labs\",\"position\":\"Engineer\"}]"@,
{
    let es = d->Arr_0@;
    lemma_job_text(es[0]);
    assert(es.last() == es[0]);
    assert(rendered_items(es) == rendered(es[0]));
    reveal_strlit("{\"company\":\"Example Labs\",\"position\":\"Engineer\"}");
    reveal_strlit("[{\"company\":\"Example Labs\",\"position\":\"Engineer\"}]");
    assert(rendered(d) =~= "[{\"company\":\"Example Labs\",\"position\":\"Engineer\"}]"@);
}

proof fn lemma_skills_text(d: Json)
    requires
        is_template_skills(d),
    ensures
        rendered(d) == "[\"Rust\"]"@,
{
    let es = d->Arr_0@;
    reveal_strlit("Rust");
    assert(forall|i: int| 0 <= i < "Rust"@.len() ==> escaped_char(#[trigger] "Rust"@[i])
        == seq!["Rust"@[i]]);
    lemma_escaped_plain("Rust"@);
    assert(es.last() == es[0]);
    assert(rendered_items(es) == rendered(es[0]));
    reveal_strlit("[\"Rust\"]");
    assert(rendered(d) =~= "[\"Rust\"]"@);
}

/// The example document serializes to exactly `template_text`.
pub proof fn lemma_template_text(d: Json)
    requires
        is_template(d),
    ensures
        rendered(d) == template_text(),
{
    let fs = d->Obj_0@;
    reveal_strlit("basics");
    assert(forall|i: int| 0 <= i < "basics"@.len() ==> escaped_char(#[trigger] "basics"@[i])
        == seq!["basics"@[i]]);
    lemma_escaped_plain("basics"@);
    reveal_strlit("work");
    assert(forall|i: int| 0 <= i < "work"@.len() ==> escaped_char(#[trigger] "work"@[i])
        == seq!["work"@[i]]);
    lemma_escaped_plain("work"@);
    reveal_strlit("skills");
    assert(forall|i: int| 0 <= i < "skills"@.len() ==> escaped_char(#[trigger] "skills"@[i])
        == seq!["skills"@[i]]);
    lemma_escaped_plain("skills"@);
    lemma_basics_text(fs[0].1);
    lemma_work_text(fs[1].1);
    lemma_skills_text(fs[2].1);
    assert(fs.drop_last().drop_last().last() == fs[0]);
    assert(fs.drop_last().drop_last().len() == 1);
    assert(fs.drop_last().last() == fs[1]);
    assert(fs.drop_last().len() == 2);
    assert(rendered_fields(fs.drop_last().drop_last()) == rendered_field(fs[0]));
    assert(rendered_fields(fs.drop_last()) == rendered_field(fs[0]) + seq![','] + rendered_field(
        fs[1],
    ));
    assert(rendered_fields(fs) == rendered_fields(fs.drop_last()) + seq![','] + rendered_field(
        fs[2],
    ));
    reveal_strlit("{\"name\":\"Alice Doe\",\"email\":\"alice@example.com\"}");
    reveal_strlit("[{\"company\":\"Example Labs\",\"position\":\"Engineer\"}]");
    reveal_strlit("[\"Rust\"]");
    reveal_strlit(
        "{\"basics\":{\"name\":\"Alice Doe\",\"email\":\"alice@example.com\"},\"work\":[{\"company\":\"Example Labs\",\"position\":\"Engineer\"}],\"skills\":[\"Rust\"]}",
    );
    assert(rendered(d) =~= template_text());
}

proof fn lemma_text_value_conforms(d: Json, s: Schema)
    requires
        d is Text,
        is_text_schema(s),
    ensures
        conforms(d, s),
{
}

proof fn lemma_basics_conforms(d: Json, s: Schema)
    requires
        is_template_basics(d),
        is_basics_schema(s),
    ensures
        conforms(d, s),
{
    let fs = d->Obj_0@;
    let req = s.required@;
    let props = s.properties@;
    reveal_strlit("name");
    reveal_strlit("email");
    assert("name"@.len() == 4);
    assert("email"@.len() == 5);
    assert(lookup(fs, "name"@) == Some(fs[0].1));
    assert(fs.drop_first()[0] == fs[1]);
    assert(fs.drop_first().drop_first().len() == 0);
    assert(lookup(fs.drop_first(), "email"@) == Some(fs[1].1));
    assert(lookup(fs, "email"@) == Some(fs[1].1));
    assert(req.drop_first()[0] == req[1]);
    assert(req.drop_first().drop_first().len() == 0);
    assert(required_present(fs, req.drop_first().drop_first()));
    assert(required_present(fs, req.drop_first()));
    assert(required_present(fs, req));
    assert(schema_lookup(props, "name"@) == Some(props[0].1));
    assert(props.drop_first()[0] == props[1]);
    assert(schema_lookup(props.drop_first(), "email"@) == Some(props[1].1));
    assert(schema_lookup(props, "email"@) == Some(props[1].1));
    lemma_text_value_conforms(fs[0].1, props[0].1);
    lemma_text_value_conforms(fs[1].1, props[1].1);
    assert(fields_conform(fs.drop_first().drop_first(), props));
    assert(fields_conform(fs.drop_first(), props));
    assert(fields_conform(fs, props));
}

proof fn lemma_job_conforms(d: Json, s: Schema)
    requires
        is_template_job(d),
        is_job_schema(s),
    ensures
        conforms(d, s),
{
    let fs = d->Obj_0@;
    let req = s.required@;
    let props = s.properties@;
    reveal_strlit("company");
    reveal_strlit("position");
    assert("company"@.len() == 7);
    assert("position"@.len() == 8);
    assert(lookup(fs, "company"@) == Some(fs[0].1));
    assert(req.drop_first().len() == 0);
    assert(required_present(fs, req.drop_first()));
    assert(required_present(fs, req));
    assert(schema_lookup(props, "company"@) == Some(props[0].1));
    assert(props.drop_first()[0] == props[1]);
    assert(fs.drop_first()[0] == fs[1]);
    assert(fs.drop_first().drop_first().len() == 0);
    assert(schema_lookup(props.drop_first(), "position"@) == Some(props[1].1));
    assert(schema_lookup(props, "position"@) == Some(props[1].1));
    lemma_text_value_conforms(fs[0].1, props[0].1);
    lemma_text_value_conforms(fs[1].1, props[1].1);
    assert(fields_conform(fs.drop_first().drop_first(), props));
    assert(fields_conform(fs.drop_first(), props));
    assert(fields_conform(fs, props));
}

proof fn lemma_work_conforms(d: Json, s: Schema)
    requires
        is_template_work(d),
        is_work_schema(s),
    ensures
        conforms(d, s),
{
    let es = d->Arr_0@;
    let sub = *s.items->0;
    lemma_job_conforms(es[0], sub);
    assert(es.drop_first().len() == 0);
    assert(items_conform(es.drop_first(), sub));
    assert(items_conform(es, sub));
}

proof fn lemma_skills_conforms(d: Json, s: Schema)
    requires
        is_template_skills(d),
        is_skills_schema(s),
    ensures
        conforms(d, s),
{
    let es = d->Arr_0@;
    let sub = *s.items->0;
    lemma_text_value_conforms(es[0], sub);
    assert(es.drop_first().len() == 0);
    assert(items_conform(es.drop_first(), sub));
    assert(items_conform(es, sub));
}

/// The bundled example document conforms to the bundled schema: what
/// initialization writes passes validation when read back.
pub proof fn lemma_template_conforms(d: Json, s: Schema)
    requires
        is_template(d),
        is_default_schema(s),
    ensures
        conforms(d, s),
{
    let fs = d->Obj_0@;
    let req = s.required@;
    let props = s.properties@;
    reveal_strlit("basics");
    reveal_strlit("work");
    reveal_strlit("skills");
    assert("basics"@.len() == 6);
    assert("work"@.len() == 4);
    assert("skills"@.len() == 6);
    assert("basics"@[0] == 'b' && "skills"@[0] == 's');
    assert("basics"@ != "skills"@);
    assert(lookup(fs, "basics"@) == Some(fs[0].1));
    assert(req.drop_first().len() == 0);
    assert(required_present(fs, req.drop_first()));
    assert(required_present(fs, req));
    assert(schema_lookup(props, "basics"@) == Some(props[0].1));
    assert(props.drop_first()[0] == props[1]);
    assert(props.drop_first().drop_first()[0] == props[2]);
    assert(fs.drop_first()[0] == fs[1]);
    assert(fs.drop_first().drop_first()[0] == fs[2]);
    assert(fs.drop_first().drop_first().drop_first().len() == 0);
    assert(schema_lookup(props.drop_first(), "work"@) == Some(props[1].1));
    assert(schema_lookup(props, "work"@) == Some(props[1].1));
    assert(schema_lookup(props.drop_first().drop_first(), "skills"@) == Some(props[2].1));
    assert(schema_lookup(props.drop_first(), "skills"@) == Some(props[2].1));
    assert(schema_lookup(props, "skills"@) == Some(props[2].1));
    lemma_basics_conforms(fs[0].1, props[0].1);
    lemma_work_conforms(fs[1].1, props[1].1);
    lemma_skills_conforms(fs[2].1, props[2].1);
    assert(fields_conform(fs.drop_first().drop_first().drop_first(), props));
    assert(fields_conform(fs.drop_first().drop_first(), props));
    assert(fields_conform(fs.drop_first(), props));
    assert(fields_conform(fs, props));
}

} // verus!
