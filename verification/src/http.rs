//! Trusted transport boundary. The reqwest blocking client carries the
//! requests; what each call is trusted to do is stated here, and nothing
//! is promised about the network's answers beyond their shape.

use vstd::prelude::*;

verus! {

#[verifier::external_type_specification]
#[verifier::external_body]
pub struct ExClient(reqwest::blocking::Client);

#[verifier::external_type_specification]
#[verifier::external_body]
pub struct ExForm(reqwest::blocking::multipart::Form);

/// A completed HTTP exchange: the status code and the raw bytes of the
/// response body.
pub struct HttpReply {
    pub status: u16,
    pub body: Vec<u8>,
}

/// The text fields a multipart form holds, in insertion order: each a
/// field name and its value.
pub uninterp spec fn form_text_fields(f: reqwest::blocking::multipart::Form) -> Seq<
    (Seq<char>, Seq<char>),
>;

/// The file attachments a multipart form holds, in insertion order:
/// each a field name, a file name and the attached bytes.
pub uninterp spec fn form_file_parts(f: reqwest::blocking::multipart::Form) -> Seq<
    (Seq<char>, Seq<char>, Seq<u8>),
>;

/// Relies on `reqwest::blocking::Client::new`: builds a transport handle
/// with default configuration; construction performs no network I/O.
/// Like every call into the blocking client, it panics when made from
/// inside an async runtime, and it panics if the client cannot be
/// built; neither condition is a function of its (absent) arguments.
#[verifier::external_body]
pub(crate) fn new_transport() -> reqwest::blocking::Client {
    reqwest::blocking::Client::new()
}

/// Relies on `reqwest::blocking::multipart::Form::new`: a form with no
/// content at all.
#[verifier::external_body]
pub(crate) fn form_new() -> (f: reqwest::blocking::multipart::Form)
    ensures
        form_text_fields(f) == Seq::<(Seq<char>, Seq<char>)>::empty(),
        form_file_parts(f) == Seq::<(Seq<char>, Seq<char>, Seq<u8>)>::empty(),
{
    reqwest::blocking::multipart::Form::new()
}

/// Relies on `reqwest::blocking::multipart::Form::text`: appends one
/// text field with the given name and value, leaving the rest as it was.
#[verifier::external_body]
pub(crate) fn form_text(
    f: reqwest::blocking::multipart::Form,
    name: String,
    value: String,
) -> (r: reqwest::blocking::multipart::Form)
    ensures
        form_text_fields(r) == form_text_fields(f).push((name@, value@)),
        form_file_parts(r) == form_file_parts(f),
{
    f.text(name, value)
}

/// Relies on `reqwest::blocking::multipart::Form::part`, `Part::bytes`
/// and `Part::file_name`: appends one file attachment with the given
/// field name, file name and bytes, leaving the rest as it was.
#[verifier::external_body]
pub(crate) fn form_file(
    f: reqwest::blocking::multipart::Form,
    name: String,
    file_name: String,
    bytes: Vec<u8>,
) -> (r: reqwest::blocking::multipart::Form)
    ensures
        form_file_parts(r) == form_file_parts(f).push((name@, file_name@, bytes@)),
        form_text_fields(r) == form_text_fields(f),
{
    f.part(name, reqwest::blocking::multipart::Part::bytes(bytes).file_name(file_name))
}

/// Relies on `reqwest::blocking::Client::post`, `RequestBuilder::header`,
/// `RequestBuilder::body`, `RequestBuilder::send`, `Response::status` and
/// `Response::bytes`: posts `body` with a JSON content type and bearer
/// authorization, and hands back the status and raw body of whatever
/// answer the network gave, or the transport error's description.
#[verifier::external_body]
pub(crate) fn post_json(
    client: &reqwest::blocking::Client,
    url: &str,
    api_key: &str,
    body: String,
) -> Result<HttpReply, String> {
    let q = client.post(url).header("Content-Type", "application/json").header(
        "Authorization",
        format!("Bearer {}", api_key),
    ).body(body);
    match q.send() {
        Err(e) => Err(e.to_string()),
        Ok(r) => {
            let status = r.status().as_u16();
            match r.bytes() {
                Err(e) => Err(e.to_string()),
                Ok(b) => Ok(HttpReply { status, body: b.to_vec() }),
            }
        },
    }
}

/// Relies on `reqwest::blocking::Client::post`, `RequestBuilder::header`,
/// `RequestBuilder::multipart`, `RequestBuilder::send`, `Response::status`
/// and `Response::bytes`: posts the form with bearer authorization only
/// (the content type follows from the multipart boundary), and hands back
/// the status and raw body of whatever answer the network gave, or the
/// transport error's description.
#[verifier::external_body]
pub(crate) fn post_multipart(
    client: &reqwest::blocking::Client,
    url: &str,
    api_key: &str,
    form: reqwest::blocking::multipart::Form,
) -> Result<HttpReply, String> {
    let q = client.post(url).header("Authorization", format!("Bearer {}", api_key)).multipart(
        form,
    );
    match q.send() {
        Err(e) => Err(e.to_string()),
        Ok(r) => {
            let status = r.status().as_u16();
            match r.bytes() {
                Err(e) => Err(e.to_string()),
                Ok(b) => Ok(HttpReply { status, body: b.to_vec() }),
            }
        },
    }
}

} // verus!
