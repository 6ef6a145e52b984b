//! The decision core of each command: everything each one concludes from
//! plain inputs — the file's text, whether a file exists, the environment
//! override, the loaded configuration — up to, but not including, the file,
//! console and network work around it.

use vstd::prelude::*;
use vstd::string::*;
use crate::auth::{ConfigRead, CredentialFault, resolve_token, resolved_token};
use crate::bundled::{is_template, lemma_template_text, template_document, template_text};
use crate::json::{Json, escaped_char, lemma_escaped_plain, rendered, rendered_field,
    rendered_fields, to_json_text};
use crate::parse::{parse_document, parsed_document};
use crate::schema::{Schema, Violation, conforms, validate, violation_witnessed};

verus! {

/// Why initialization was refused: the target file already exists.
#[derive(Debug)]
pub enum InitRefused {
    AlreadyExists,
}

/// The init command's core: given whether the target file already exists,
/// either the exact text to write, or a refusal. When the file exists,
/// nothing is ever written over it.
pub fn init_plan(file_exists: bool) -> (r: Result<String, InitRefused>)
    ensures
        r is Err <==> file_exists,
        r matches Ok(text) ==> text@ == template_text(),
        r matches Ok(text) ==> exists|d: Json| is_template(d) && text@ == rendered(d),
{
    if file_exists {
        Err(InitRefused::AlreadyExists)
    } else {
        let d = template_document();
        let text = to_json_text(&d);
        proof {
            lemma_template_text(d);
            assert(is_template(d) && text@ == rendered(d));
        }
        Ok(text)
    }
}

/// Why a document was not accepted.
#[derive(Debug)]
pub enum DocumentFault {
    Unparsable { detail: String },
    Invalid { violation: Violation },
}

/// The validate command's core: parse a file's text and check the document
/// against the schema. Success yields the document and means exactly that
/// the text parses and the document conforms; each failure says which step
/// refused it.
pub fn check_document_text(text: &str, schema: &Schema) -> (r: Result<Json, DocumentFault>)
    ensures
        r matches Ok(d) ==> parsed_document(text@) == Some(d) && conforms(d, *schema),
        r is Ok <==> (parsed_document(text@) matches Some(d) && conforms(d, *schema)),
        (r matches Err(DocumentFault::Unparsable { .. })) <==> parsed_document(text@) is None,
        r matches Err(DocumentFault::Invalid { violation }) ==> (parsed_document(text@) matches Some(
            d,
        ) && !conforms(d, *schema) && violation_witnessed(violation, d, *schema)),
{
    match parse_document(text) {
        Err(p) => Err(DocumentFault::Unparsable { detail: p.detail }),
        Ok(d) => match validate(&d, schema) {
            Ok(()) => Ok(d),
            Err(v) => Err(DocumentFault::Invalid { violation: v }),
        },
    }
}

/// The base address of the hosted service.
pub open spec fn service_url() -> Seq<char> {
    "https://txtcv.com"@
}

/// The address a publish goes to: the service's CV store, by identifier.
pub open spec fn publish_url_text(cv_id: Seq<char>) -> Seq<char> {
    "https://txtcv.com/api/cv/"@ + cv_id
}

/// The authorization header for a token.
pub open spec fn bearer_text(token: Seq<char>) -> Seq<char> {
    "Bearer "@ + token
}

/// The wire body of a publish: the document wrapped under `contents`.
pub open spec fn publish_body_text(d: Json) -> Seq<char> {
    "{\"contents\":"@ + rendered(d) + "}"@
}

fn bearer(token: &str) -> (r: String)
    ensures
        r@ == bearer_text(token@),
{
    let mut r = String::from_str("Bearer ");
    r.append(token);
    r
}

fn publish_url(cv_id: &str) -> (r: String)
    ensures
        r@ == publish_url_text(cv_id@),
{
    let mut r = String::from_str("https://txtcv.com/api/cv/");
    r.append(cv_id);
    r
}

fn build_publish_body(d: Json) -> (r: String)
    ensures
        r@ == publish_body_text(d),
{
    let mut fields: Vec<(String, Json)> = Vec::new();
    fields.push((String::from_str("contents"), d));
    let ghost doc: Json = fields@[0].1;
    let wrapper = Json::Obj(fields);
    let r = to_json_text(&wrapper);
    proof {
        let fs = wrapper->Obj_0@;
        reveal_strlit("contents");
        assert(forall|i: int| 0 <= i < "contents"@.len() ==> escaped_char(
            #[trigger] "contents"@[i],
        ) == seq!["contents"@[i]]);
        lemma_escaped_plain("contents"@);
        assert(rendered_fields(fs) == rendered_field(fs[0]));
        reveal_strlit("{\"contents\":");
        reveal_strlit("}");
        assert(r@ =~= publish_body_text(doc));
    }
    r
}

/// Why a publish was refused.
#[derive(Debug)]
pub enum PublishFault {
    Unparsable { detail: String },
    Invalid { violation: Violation },
    ConfigUnreadable,
    NoToken,
}

/// One authenticated update request, ready to be sent: the address, the
/// authorization header, and the JSON body.
pub struct PublishRequest {
    pub url: String,
    pub authorization: String,
    pub body: String,
}

/// The publish command's core: parse the text, check the document against
/// the schema, resolve the credential, and only then produce the one
/// request to send. No request exists unless the document conforms and a
/// token was resolved, so nothing invalid and nothing unauthenticated is
/// ever sent.
pub fn prepare_publish(
    cv_id: &str,
    text: &str,
    schema: &Schema,
    env_token: Option<String>,
    config: &ConfigRead,
) -> (r: Result<PublishRequest, PublishFault>)
    ensures
        r matches Ok(q) ==> (parsed_document(text@) matches Some(d) && conforms(d, *schema)
            && q.body@ == publish_body_text(d)) && (resolved_token(
            env_token.deep_view(),
            *config,
        ) matches Ok(Some(t)) && q.authorization@ == bearer_text(t)) && q.url@ == publish_url_text(
            cv_id@,
        ),
        r is Ok <==> (parsed_document(text@) matches Some(d) && conforms(d, *schema)
            && (resolved_token(env_token.deep_view(), *config) matches Ok(Some(_)))),
        (r matches Err(PublishFault::Unparsable { .. })) <==> parsed_document(text@) is None,
        r matches Err(PublishFault::Invalid { violation }) ==> (parsed_document(
            text@,
        ) matches Some(d) && !conforms(d, *schema) && violation_witnessed(violation, d, *schema)),
        (r matches Err(PublishFault::ConfigUnreadable)) <==> (parsed_document(text@) matches Some(
            d,
        ) && conforms(d, *schema) && resolved_token(env_token.deep_view(), *config) is Err),
        (r matches Err(PublishFault::NoToken)) <==> (parsed_document(text@) matches Some(d)
            && conforms(d, *schema) && resolved_token(env_token.deep_view(), *config) == Ok::<
            Option<Seq<char>>,
            CredentialFault,
        >(None)),
{
    match parse_document(text) {
        Err(p) => Err(PublishFault::Unparsable { detail: p.detail }),
        Ok(d) => match validate(&d, schema) {
            Err(v) => Err(PublishFault::Invalid { violation: v }),
            Ok(()) => match resolve_token(env_token, config) {
                Err(_) => Err(PublishFault::ConfigUnreadable),
                Ok(None) => Err(PublishFault::NoToken),
                Ok(Some(tok)) => {
                    let url = publish_url(cv_id);
                    let authorization = bearer(tok.as_str());
                    let body = build_publish_body(d);
                    Ok(PublishRequest { url, authorization, body })
                },
            },
        },
    }
}

/// Why an authentication check was refused before any request was made.
#[derive(Debug)]
pub enum AuthFault {
    ConfigUnreadable,
    NoToken,
}

/// One authenticated liveness request, ready to be sent.
pub struct AuthCheckRequest {
    pub url: String,
    pub authorization: String,
}

/// The auth-check command's core: resolve the credential and produce the
/// one request to send; without a token no request exists.
pub fn prepare_auth_check(env_token: Option<String>, config: &ConfigRead) -> (r: Result<
    AuthCheckRequest,
    AuthFault,
>)
    ensures
        r matches Ok(q) ==> (resolved_token(env_token.deep_view(), *config) matches Ok(Some(t))
            && q.authorization@ == bearer_text(t) && q.url@ == service_url()),
        r is Ok <==> (resolved_token(env_token.deep_view(), *config) matches Ok(Some(_))),
        (r matches Err(AuthFault::NoToken)) <==> resolved_token(env_token.deep_view(), *config)
            == Ok::<Option<Seq<char>>, CredentialFault>(None),
        (r matches Err(AuthFault::ConfigUnreadable)) <==> resolved_token(
            env_token.deep_view(),
            *config,
        ) is Err,
{
    match resolve_token(env_token, config) {
        Err(_) => Err(AuthFault::ConfigUnreadable),
        Ok(None) => Err(AuthFault::NoToken),
        Ok(Some(tok)) => {
            let authorization = bearer(tok.as_str());
            let url = String::from_str("https://txtcv.com");
            Ok(AuthCheckRequest { url, authorization })
        },
    }
}

} // verus!
