use vstd::prelude::*;
use vstd::string::{StrSliceExecFns, StringExecFns, StringSliceAdditionalSpecFns};
use vstd::utf8::encode_utf8;
use crate::bytes::{ascii_chars_of, extend_bytes};
use crate::canonical::{ascii_lower, canonical_request, canonical_request_bytes};
use crate::signing::{
    credential_scope_bytes, derive_signature, signature_hex_bytes, string_to_sign,
    string_to_sign_bytes,
};
use crate::timefmt::{date_chars_of, dec_chars, format_u64, timestamp_to_date, TS_MAX};

verus! {

/// A credential pair: the public identifier sent with each request and the
/// secret used to derive signatures. Supplied per call, never stored.
pub struct Access {
    pub secret_id: String,
    pub secret_key: String,
}

/// The static description of one target service: its identifier inside the
/// credential scope, the host the request is addressed to, and the API
/// version sent with each call.
pub struct Service {
    pub service: String,
    pub host: String,
    pub version: String,
}

/// The request style. Only JSON-over-POST is implemented; further styles
/// would earn variants here rather than silently guessed behaviour.
pub enum Style {
    PostJson,
}

/// One API operation: the service it targets, its style and its name.
/// The serialized payload travels beside it as plain bytes.
pub struct Action {
    pub service: Service,
    pub style: Style,
    pub action: String,
}

/// The reply envelope the service wraps every response payload in.
pub struct ResponseWrapper<T> {
    pub response: T,
}

/// Why no request could be built. Every failure is detected before any
/// header is emitted; a partially built request is never returned.
#[derive(Clone, Copy, Debug, PartialEq, Eq, Structural)]
pub enum BuildError {
    /// The timestamp maps to no calendar date.
    InvalidTimestamp,
    /// The payload could not be serialized to JSON (raised by callers that
    /// serialize; the core takes the bytes as given).
    SerializationFailure,
    /// The secret key was rejected as HMAC key material. HMAC-SHA256 accepts
    /// keys of any length, so the core itself never raises it.
    KeyMaterialError,
}

/// The built request: method, URI, ordered header pairs and body bytes.
pub struct SignedRequest {
    pub method: String,
    pub uri: String,
    pub headers: Vec<(String, String)>,
    pub body: Vec<u8>,
}

/// The Authorization header value: algorithm, credential (identifier and
/// scope), the fixed signed-header list, and the hex signature.
pub open spec fn authorization_chars(
    secret_id: Seq<char>,
    date: Seq<char>,
    service: Seq<char>,
    signature: Seq<char>,
) -> Seq<char> {
    "TC3-HMAC-SHA256 Credential="@ + secret_id + "/"@ + date + "/"@ + service
        + "/tc3_request, SignedHeaders=content-type;host;x-tc-action, Signature="@ + signature
}

/// What a built request must look like for the given inputs: method POST,
/// URI `/`, the body unchanged, and exactly the six headers with the values
/// the signing pipeline derives from the inputs.
pub open spec fn request_matches(
    r: SignedRequest,
    payload: Seq<u8>,
    timestamp: u64,
    access: Access,
    action: Action,
) -> bool {
    let date = date_chars_of(timestamp);
    let creq = canonical_request_bytes(
        encode_utf8(action.service.host@),
        ascii_lower(encode_utf8(action.action@)),
        payload,
    );
    let scope = credential_scope_bytes(encode_utf8(date), encode_utf8(action.service.service@));
    let sts = string_to_sign_bytes(timestamp, scope, creq);
    let signature = ascii_chars_of(
        signature_hex_bytes(
            encode_utf8(access.secret_key@),
            encode_utf8(date),
            encode_utf8(action.service.service@),
            sts,
        ),
    );
    &&& r.method@ == "POST"@
    &&& r.uri@ == "/"@
    &&& r.body@ == payload
    &&& r.headers@.len() == 6
    &&& r.headers@[0].0@ == "Authorization"@
    &&& r.headers@[0].1@ == authorization_chars(
        access.secret_id@,
        date,
        action.service.service@,
        signature,
    )
    &&& r.headers@[1].0@ == "Content-Type"@
    &&& r.headers@[1].1@ == "application/json; charset=utf-8"@
    &&& r.headers@[2].0@ == "Host"@
    &&& r.headers@[2].1@ == action.service.host@
    &&& r.headers@[3].0@ == "X-TC-Action"@
    &&& r.headers@[3].1@ == action.action@
    &&& r.headers@[4].0@ == "X-TC-Timestamp"@
    &&& r.headers@[4].1@ == dec_chars(timestamp as nat)
    &&& r.headers@[5].0@ == "X-TC-Version"@
    &&& r.headers@[5].1@ == action.service.version@
}

/// Composes the Authorization header value from its four variable pieces.
pub fn build_authorization(secret_id: &str, date: &str, service: &str, signature: &str) -> (r:
    String)
    ensures
        r@ == authorization_chars(secret_id@, date@, service@, signature@),
{
    let mut out = String::from_str("TC3-HMAC-SHA256 Credential=");
    out.append(secret_id);
    out.append("/");
    out.append(date);
    out.append("/");
    out.append(service);
    out.append("/tc3_request, SignedHeaders=content-type;host;x-tc-action, Signature=");
    out.append(signature);
    proof {
        assert(out@ =~= authorization_chars(secret_id@, date@, service@, signature@));
    }
    out
}

/// Builds the signed request for the serialized payload, the timestamp, the
/// caller's credentials and the action descriptor. Fails exactly when the
/// timestamp maps to no calendar date; nothing partial is ever returned.
pub fn build_request(payload: &[u8], timestamp: u64, access: &Access, action: &Action) -> (r:
    Result<SignedRequest, BuildError>)
    ensures
        r is Ok <==> timestamp <= TS_MAX,
        r matches Err(e) ==> e == BuildError::InvalidTimestamp,
        r matches Ok(req) ==> request_matches(req, payload@, timestamp, *access, *action),
{
    let date = match timestamp_to_date(timestamp) {
        Some(d) => d,
        None => {
            return Err(BuildError::InvalidTimestamp);
        },
    };
    let method = match action.style {
        Style::PostJson => String::from_str("POST"),
    };
    let creq = canonical_request(action.service.host.as_str(), action.action.as_str(), payload);
    let sts = string_to_sign(
        timestamp,
        date.as_str(),
        action.service.service.as_str(),
        creq.as_slice(),
    );
    let signature = derive_signature(
        access.secret_key.as_str(),
        date.as_str(),
        action.service.service.as_str(),
        sts.as_slice(),
    );
    let authorization = build_authorization(
        access.secret_id.as_str(),
        date.as_str(),
        action.service.service.as_str(),
        signature.as_str(),
    );
    let timestamp_string = format_u64(timestamp);
    let mut headers: Vec<(String, String)> = Vec::new();
    headers.push((String::from_str("Authorization"), authorization));
    headers.push(
        (String::from_str("Content-Type"), String::from_str("application/json; charset=utf-8")),
    );
    headers.push((String::from_str("Host"), action.service.host.clone()));
    headers.push((String::from_str("X-TC-Action"), action.action.clone()));
    headers.push((String::from_str("X-TC-Timestamp"), timestamp_string));
    headers.push((String::from_str("X-TC-Version"), action.service.version.clone()));
    let mut body: Vec<u8> = Vec::new();
    extend_bytes(&mut body, payload);
    Ok(SignedRequest { method, uri: String::from_str("/"), headers, body })
}

} // verus!
