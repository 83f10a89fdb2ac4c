use vstd::prelude::*;

use crate::errors::OciError;
use crate::image::config::{config_json_ok, config_matches, Config};
use crate::image::layer::Layer;
use crate::image::manifest::{
    config_mime, layer_mime, manifest_json_ok, manifest_matches, manifest_mime, Manifest,
};
use crate::image::ImageReference;
use crate::json::{as_string, json_of, obj_get, obj_lookup, parse_json, Json};

verus! {

/// The fixed token endpoint, asking for pull access to `name`.
pub open spec fn token_url_of(name: Seq<char>) -> Seq<char> {
    "https://auth.docker.io/token?service=registry.docker.io&scope=repository:"@ + name
        + ":pull"@
}

fn token_url(im: &ImageReference) -> (r: String)
    requires
        im.wf(),
    ensures
        r@ == token_url_of(im.spec_name()),
{
    let mut u = String::from_str(
        "https://auth.docker.io/token?service=registry.docker.io&scope=repository:",
    );
    let name = im.name();
    u.append(name.as_str());
    u.append(":pull");
    proof {
        assert(u@ =~= token_url_of(im.spec_name()));
    }
    u
}

/// The manifest endpoint of the reference's registry.
pub open spec fn manifest_url_of(im: ImageReference) -> Seq<char> {
    im.spec_scheme() + "://"@ + im.spec_hostport() + "/v2/"@ + im.spec_name() + "/manifests/"@
        + im.spec_tag()
}

fn manifest_url(im: &ImageReference) -> (r: String)
    requires
        im.wf(),
    ensures
        r@ == manifest_url_of(*im),
{
    let mut u = im.scheme();
    u.append("://");
    let hostport = im.hostport();
    u.append(hostport.as_str());
    u.append("/v2/");
    let name = im.name();
    u.append(name.as_str());
    u.append("/manifests/");
    let tag = im.tag();
    u.append(tag.as_str());
    proof {
        assert(u@ =~= manifest_url_of(*im));
    }
    u
}

/// The blob endpoint of the reference's registry, for one digest.
pub open spec fn blob_url_of(im: ImageReference, digest: Seq<char>) -> Seq<char> {
    im.spec_scheme() + "://"@ + im.spec_hostport() + "/v2/"@ + im.spec_name() + "/blobs/"@
        + digest
}

fn blob_url(im: &ImageReference, digest: String) -> (r: String)
    requires
        im.wf(),
    ensures
        r@ == blob_url_of(*im, digest@),
{
    let mut u = im.scheme();
    u.append("://");
    let hostport = im.hostport();
    u.append(hostport.as_str());
    u.append("/v2/");
    let name = im.name();
    u.append(name.as_str());
    u.append("/blobs/");
    u.append(digest.as_str());
    proof {
        assert(u@ =~= blob_url_of(*im, digest@));
    }
    u
}

/// Relies on `reqwest::blocking::Client`: one GET of `url`, answered with
/// the response's status code and text body, or with the transport error's
/// message. What comes back depends on the network, so nothing is promised
/// of it.
#[verifier::external_body]
fn http_get(url: &str) -> (r: Result<(u16, String), String>) {
    let client = reqwest::blocking::Client::new();
    match client.get(url).send() {
        Ok(res) => {
            let status = res.status().as_u16();
            match res.text() {
                Ok(body) => Ok((status, body)),
                Err(e) => Err(e.to_string()),
            }
        },
        Err(e) => Err(e.to_string()),
    }
}

/// Relies on `reqwest::blocking::Client`: one GET of `url` with a bearer
/// `Authorization` header and an `Accept` header, answered with status and
/// text body. Nothing is promised of the network's answer.
#[verifier::external_body]
fn http_get_auth(url: &str, token: &str, accept: &str) -> (r: Result<(u16, String), String>) {
    let client = reqwest::blocking::Client::new();
    let req = client.get(url).header("Authorization", format!("Bearer {}", token)).header(
        "Accept",
        accept,
    );
    match req.send() {
        Ok(res) => {
            let status = res.status().as_u16();
            match res.text() {
                Ok(body) => Ok((status, body)),
                Err(e) => Err(e.to_string()),
            }
        },
        Err(e) => Err(e.to_string()),
    }
}

/// Relies on `reqwest::blocking::Client`: as `http_get_auth`, but the body
/// comes back as raw bytes, for blobs. Nothing is promised of the network's
/// answer.
#[verifier::external_body]
fn http_get_auth_bytes(url: &str, token: &str, accept: &str) -> (r: Result<
    (u16, Vec<u8>),
    String,
>) {
    let client = reqwest::blocking::Client::new();
    let req = client.get(url).header("Authorization", format!("Bearer {}", token)).header(
        "Accept",
        accept,
    );
    match req.send() {
        Ok(res) => {
            let status = res.status().as_u16();
            match res.bytes() {
                Ok(body) => Ok((status, body.to_vec())),
                Err(e) => Err(e.to_string()),
            }
        },
        Err(e) => Err(e.to_string()),
    }
}

/// A token response body holds a JSON object with a string field `token`.
pub open spec fn token_response_ok(body: Seq<char>) -> bool {
    json_of(body) matches Some(Json::Obj(fs)) && obj_lookup(fs@, "token"@) matches Some(
        Json::Str(_),
    )
}

/// The token a well-formed token response carries.
pub open spec fn token_of_body(body: Seq<char>) -> Seq<char> {
    match json_of(body) {
        Some(Json::Obj(fs)) => match obj_lookup(fs@, "token"@) {
            Some(Json::Str(s)) => s@,
            _ => Seq::empty(),
        },
        _ => Seq::empty(),
    }
}

/// Decide a token endpoint's answer: a non-2xx status is an auth failure, a
/// 2xx body that does not carry a token does not decode, and otherwise the
/// token is returned — exactly that one.
pub fn token_from_response(status: u16, body: &str) -> (r: Result<String, OciError>)
    ensures
        match r {
            Ok(t) => 200 <= status < 300 && token_response_ok(body@) && t@ == token_of_body(
                body@,
            ),
            Err(e) => match e {
                OciError::Auth => !(200 <= status < 300),
                OciError::Decode => 200 <= status < 300 && !token_response_ok(body@),
                _ => false,
            },
        },
{
    if status < 200 || status >= 300 {
        return Err(OciError::Auth);
    }
    match parse_json(body) {
        Some(j) => match &j {
            Json::Obj(fs) => match as_string(obj_get(fs, "token")) {
                Ok(s) => Ok(s),
                Err(_) => Err(OciError::Decode),
            },
            _ => Err(OciError::Decode),
        },
        None => Err(OciError::Decode),
    }
}

/// The schema version a manifest document declares, or -1 where it declares
/// none that reads as a number.
pub open spec fn manifest_schema_version(j: Json) -> int {
    match j {
        Json::Obj(fs) => match obj_lookup(fs@, "schemaVersion"@) {
            Some(Json::Num(Some(n))) => n as int,
            _ => -1,
        },
        _ => -1,
    }
}

/// A manifest response body is a well-shaped manifest document of the
/// supported schema version.
pub open spec fn manifest_response_ok(body: Seq<char>) -> bool {
    json_of(body) matches Some(j) && manifest_json_ok(j) && manifest_schema_version(j) == 2
}

/// Decide a manifest endpoint's answer: a non-2xx status keeps the status
/// and the raw body; a 2xx body must parse as a manifest of schema version
/// 2, else it does not decode.
pub fn manifest_from_response(status: u16, body: &str) -> (r: Result<Manifest, OciError>)
    ensures
        match r {
            Ok(m) => {
                &&& 200 <= status < 300
                &&& m.schema_version == 2
                &&& json_of(body@) matches Some(j) && manifest_json_ok(j) && manifest_matches(
                    m,
                    j,
                )
            },
            Err(e) => match e {
                OciError::Http { status: st, body: b } => {
                    &&& st == status
                    &&& !(200 <= status < 300)
                    &&& b matches Some(bs) && bs@ == body@
                },
                OciError::Decode => 200 <= status < 300 && !manifest_response_ok(body@),
                _ => false,
            },
        },
{
    if status < 200 || status >= 300 {
        return Err(OciError::Http { status, body: Some(body.to_owned()) });
    }
    match Manifest::parse(body) {
        Ok(m) => {
            if m.schema_version == 2 {
                Ok(m)
            } else {
                Err(OciError::Decode)
            }
        },
        Err(e) => Err(e),
    }
}

/// Decide a config blob endpoint's answer: a non-2xx status keeps the
/// status and the raw body; a 2xx body must parse as a config document.
pub fn config_from_response(status: u16, body: &str) -> (r: Result<Config, OciError>)
    ensures
        match r {
            Ok(c) => {
                &&& 200 <= status < 300
                &&& json_of(body@) matches Some(j) && config_json_ok(j) && config_matches(c, j)
            },
            Err(e) => match e {
                OciError::Http { status: st, body: b } => {
                    &&& st == status
                    &&& !(200 <= status < 300)
                    &&& b matches Some(bs) && bs@ == body@
                },
                OciError::Decode => 200 <= status < 300 && !(json_of(body@) matches Some(j)
                    && config_json_ok(j)),
                _ => false,
            },
        },
{
    if status < 200 || status >= 300 {
        return Err(OciError::Http { status, body: Some(body.to_owned()) });
    }
    Config::parse(body)
}

/// Decide a blob endpoint's answer: a 2xx status hands the bytes through
/// unchanged; anything else keeps the status.
pub fn blob_from_response(status: u16, bytes: Vec<u8>) -> (r: Result<Vec<u8>, OciError>)
    ensures
        match r {
            Ok(v) => 200 <= status < 300 && v@ == bytes@,
            Err(e) => e matches OciError::Http { status: st, body: b } && st == status && !(200
                <= status < 300) && b is None,
        },
{
    if status < 200 || status >= 300 {
        return Err(OciError::Http { status, body: None });
    }
    Ok(bytes)
}

/// Ask the fixed token endpoint for a pull token for this reference. The
/// network decides the response; whatever comes back is decided by
/// `token_from_response`, and a transport failure is an auth failure.
pub fn get_token(im: &ImageReference) -> (r: Result<String, OciError>)
    requires
        im.wf(),
    ensures
        r matches Err(e) ==> (e is Auth || e is Decode),
{
    let url = token_url(im);
    match http_get(url.as_str()) {
        Ok((status, body)) => token_from_response(status, body.as_str()),
        Err(_) => Err(OciError::Auth),
    }
}

/// Fetch and decode this reference's manifest. The response is decided by
/// `manifest_from_response`: every manifest handed back declares schema
/// version 2. A transport failure is reported as an HTTP failure with
/// status 0.
pub fn get_manifest(im: &ImageReference, token: &String) -> (r: Result<Manifest, OciError>)
    requires
        im.wf(),
    ensures
        match r {
            Ok(m) => m.schema_version == 2,
            Err(e) => e is Http || e is Decode,
        },
{
    let url = manifest_url(im);
    match http_get_auth(url.as_str(), token.as_str(), manifest_mime()) {
        Ok((status, body)) => manifest_from_response(status, body.as_str()),
        Err(msg) => Err(OciError::Http { status: 0, body: Some(msg) }),
    }
}

/// Fetch this reference's manifest, then the config blob the manifest names,
/// and decode it. A manifest failure aborts before any blob request is
/// issued.
pub fn get_config(im: &ImageReference, token: &String) -> (r: Result<Config, OciError>)
    requires
        im.wf(),
    ensures
        r matches Err(e) ==> (e is Http || e is Decode),
{
    let m = match get_manifest(im, token) {
        Ok(m) => m,
        Err(e) => {
            return Err(e);
        },
    };
    let url = blob_url(im, m.config.digest.display());
    match http_get_auth(url.as_str(), token.as_str(), config_mime()) {
        Ok((status, body)) => config_from_response(status, body.as_str()),
        Err(msg) => Err(OciError::Http { status: 0, body: Some(msg) }),
    }
}

/// Fetch one blob by digest, with the caller's `Accept` media type, and
/// hand its bytes through unchanged when the endpoint answers 2xx.
pub fn get_blob(im: &ImageReference, digest: String, token: &String, accept: &str) -> (r: Result<
    Vec<u8>,
    OciError,
>)
    requires
        im.wf(),
    ensures
        r matches Err(e) ==> e is Http,
{
    let url = blob_url(im, digest);
    match http_get_auth_bytes(url.as_str(), token.as_str(), accept) {
        Ok((status, bytes)) => blob_from_response(status, bytes),
        Err(msg) => Err(OciError::Http { status: 0, body: Some(msg) }),
    }
}

/// Fetch one layer blob by digest and build its catalog.
pub fn get_layer(im: &ImageReference, digest: String, token: &String) -> (r: Result<
    Layer,
    OciError,
>)
    requires
        im.wf(),
    ensures
        match r {
            Ok(l) => l.file_tree.node_type is Dir && l.file_tree.children is Some,
            Err(e) => e is Http || e is Decode,
        },
{
    let bytes = match get_blob(im, digest, token, layer_mime()) {
        Ok(b) => b,
        Err(e) => {
            return Err(e);
        },
    };
    Layer::from_archive_bytes(bytes.as_slice())
}

} // verus!
