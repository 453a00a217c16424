//! The signed messenger: it builds signed requests and checks the server's
//! signature on what comes back, before any body is read.
//!
//! The messenger does no I/O itself. A caller sends the request that `request`
//! builds, hands the reply to `send` (or, for the installation call alone, to
//! `send_unverified`), and repeats the same request while `send` says that the
//! server asked to slow down.

use vstd::prelude::*;
use vstd::string::StringExecFns;
use crate::crypto::{sha256_signature_valid, base64_bytes, base64_decode, base64_encode, base64_text, sign_sha256, verify_sha256};
use crate::deserialization::{envelope_of, parse_envelope, DecodeError};
use crate::json::Json;
use crate::types::{ApiErrorDescription, ApiResponseBody};

verus! {

/// The HTTP status by which the server asks a client to slow down.
pub const TOO_MANY_REQUESTS: u16 = 429;

/// How long a caller waits before it repeats a rate-limited request, in milliseconds.
pub const RATE_LIMIT_BACKOFF_MS: u64 = 1000;

#[derive(Debug, Clone, Copy, PartialEq, Eq, Structural)]
pub enum HttpMethod {
    Get,
    Post,
    Put,
}

/// A request, ready to be sent as it stands.
#[derive(Debug)]
pub struct HttpRequest {
    pub method: HttpMethod,
    pub url: String,
    pub headers: Vec<(String, String)>,
    pub body: Option<String>,
}

/// A reply, as the transport received it.
#[derive(Debug)]
pub struct HttpResponse {
    pub status: u16,
    /// The `X-Server-Signature` header, where the reply has one.
    pub server_signature: Option<String>,
    pub body: Vec<u8>,
}

/// The server's error list, with the HTTP status that came with it.
#[derive(Debug)]
pub struct ApiErrorResponse {
    pub status_code: u16,
    pub reasons: Vec<ApiErrorDescription>,
}

/// A decoded envelope. Only the messenger makes one, after its checks.
#[derive(Debug)]
pub struct ApiResponse<T> {
    body: ApiResponseBody<T>,
    status_code: u16,
}

impl<T> ApiResponse<T> {
    pub closed spec fn spec_body(&self) -> ApiResponseBody<T> {
        self.body
    }

    pub closed spec fn spec_status(&self) -> u16 {
        self.status_code
    }

    pub fn status_code(&self) -> (r: u16)
        ensures
            r == self.spec_status(),
    {
        self.status_code
    }

    pub fn into_body(self) -> (r: ApiResponseBody<T>)
        ensures
            r == self.spec_body(),
    {
        self.body
    }

    /// The payload, or the server's errors with the status.
    pub fn into_result(self) -> (r: Result<T, ApiErrorResponse>)
        ensures
            match self.spec_body() {
                ApiResponseBody::Payload(v) => r == Ok::<T, ApiErrorResponse>(v),
                ApiResponseBody::Errors(list) => r matches Err(e) && e.status_code
                    == self.spec_status() && e.reasons == list,
            },
    {
        match self.body {
            ApiResponseBody::Payload(body) => Ok(body),
            ApiResponseBody::Errors(reasons) => Err(
                ApiErrorResponse { status_code: self.status_code, reasons },
            ),
        }
    }
}

#[derive(Debug)]
pub enum MessageError {
    NoResponseBody,
    /// The body is not an envelope that the codec can read.
    BodyParseError(DecodeError),
    /// The body could not be signed.
    RequestBuildError,
    /// The transport could not deliver the request.
    RequestSendError,
    InvalidServerSignature { reason: String },
}

/// What a reply to a verified request comes to.
#[derive(Debug)]
pub enum Delivery {
    /// The server asked to slow down: wait, then send the same request again.
    RateLimited,
    Delivered(ApiResponse<Json>),
}

pub open spec fn opt_view(o: Option<String>) -> Option<Seq<char>> {
    match o {
        Some(s) => Some(s@),
        None => None,
    }
}

pub open spec fn header_view(headers: Seq<(String, String)>) -> Seq<(Seq<char>, Seq<char>)> {
    headers.map_values(|h: (String, String)| (h.0@, h.1@))
}

/// The headers of a request: the agent, no caching, the body's signature where there
/// is a body, and the bearer token where there is one.
pub open spec fn spec_headers(
    app_name: Seq<char>,
    signature: Option<Seq<char>>,
    token: Option<Seq<char>>,
) -> Seq<(Seq<char>, Seq<char>)> {
    seq![("User-Agent"@, app_name), ("Cache-Control"@, "no-cache"@)] + match signature {
        Some(s) => seq![("X-Client-Signature"@, s)],
        None => Seq::empty(),
    } + match token {
        Some(t) => seq![("X-Client-Authentication"@, t)],
        None => Seq::empty(),
    }
}

/// The request carries the messenger's agent and bearer token, and no signature.
pub open spec fn headers_without_signature(m: Messenger, req: HttpRequest) -> bool {
    header_view(req.headers@) == spec_headers(m.spec_app_name(), None, m.spec_token())
}

/// The request carries the messenger's agent and bearer token, and a signature header
/// in base64. Which bytes it encodes is openssl's signer's result, which this library
/// does not name: a signature may be drawn at random, depending on the key's kind.
pub open spec fn headers_with_signature(m: Messenger, req: HttpRequest) -> bool {
    exists|sig: Seq<u8>|
        header_view(req.headers@) == spec_headers(
            m.spec_app_name(),
            Some(base64_text(sig)),
            m.spec_token(),
        )
}

/// The base64 text decodes to a signature of `body` under the messenger's server key.
pub open spec fn signature_verifies(m: Messenger, signature: Seq<char>, body: Seq<u8>) -> bool {
    match base64_bytes(signature) {
        Some(sig) => m.spec_server_key() is Some && sha256_signature_valid(
            m.spec_server_key()->0,
            body,
            sig,
        ),
        None => false,
    }
}

/// The reply carries a signature header that verifies against its body.
pub open spec fn reply_verifies(m: Messenger, response: HttpResponse) -> bool {
    match response.server_signature {
        Some(s) => signature_verifies(m, s@, response.body@),
        None => false,
    }
}

/// The address of `endpoint` under `base_url`.
pub open spec fn spec_url(base_url: Seq<char>, endpoint: Seq<char>) -> Seq<char> {
    base_url + "/"@ + endpoint
}

/// What `send` makes of a reply, given whether its signature checked out.
pub open spec fn received(
    response: HttpResponse,
    signature_valid: bool,
    r: Result<Delivery, MessageError>,
) -> bool {
    if response.status == TOO_MANY_REQUESTS {
        r matches Ok(Delivery::RateLimited)
    } else if !signature_valid {
        r matches Err(MessageError::InvalidServerSignature { .. })
    } else {
        delivered(response, r)
    }
}

/// `r` is the envelope decoded from the reply's body, or the codec's error.
pub open spec fn delivered(response: HttpResponse, r: Result<Delivery, MessageError>) -> bool {
    match r {
        Ok(Delivery::Delivered(a)) => envelope_of(response.body@, Ok(a.spec_body()))
            && a.spec_status() == response.status,
        Err(MessageError::BodyParseError(e)) => envelope_of(response.body@, Err(e)),
        _ => false,
    }
}

/// Decodes a reply whose signature has been dealt with.
fn decode_reply(response: &HttpResponse) -> (r: Result<ApiResponse<Json>, MessageError>)
    ensures
        match r {
            Ok(a) => envelope_of(response.body@, Ok(a.spec_body())) && a.spec_status()
                == response.status,
            Err(MessageError::BodyParseError(e)) => envelope_of(response.body@, Err(e)),
            _ => false,
        },
{
    match parse_envelope(response.body.as_slice()) {
        Ok(body) => Ok(ApiResponse { body, status_code: response.status }),
        Err(e) => Err(MessageError::BodyParseError(e)),
    }
}

/// Sorts a reply to a verified request, given whether its signature checked out:
/// a rate limit first, then the signature, and only then the body.
pub fn receive(response: &HttpResponse, signature_valid: bool) -> (r: Result<
    Delivery,
    MessageError,
>)
    ensures
        received(*response, signature_valid, r),
{
    if response.status == TOO_MANY_REQUESTS {
        Ok(Delivery::RateLimited)
    } else if !signature_valid {
        Err(
            MessageError::InvalidServerSignature {
                reason: String::from_str("the response's signature does not match its body"),
            },
        )
    } else {
        match decode_reply(response) {
            Ok(a) => Ok(Delivery::Delivered(a)),
            Err(e) => Err(e),
        }
    }
}

pub struct Messenger {
    base_url: String,
    app_name: String,
    private_sign_key: openssl::pkey::PKey<openssl::pkey::Private>,
    bunq_public_sign_key: Option<openssl::pkey::PKey<openssl::pkey::Public>>,
    authentication_token: Option<String>,
}

impl Messenger {
    pub closed spec fn spec_base_url(&self) -> Seq<char> {
        self.base_url@
    }

    pub closed spec fn spec_app_name(&self) -> Seq<char> {
        self.app_name@
    }

    pub closed spec fn spec_private_key(&self) -> openssl::pkey::PKey<openssl::pkey::Private> {
        self.private_sign_key
    }

    pub closed spec fn spec_server_key(&self) -> Option<openssl::pkey::PKey<openssl::pkey::Public>> {
        self.bunq_public_sign_key
    }

    pub closed spec fn spec_token(&self) -> Option<Seq<char>> {
        opt_view(self.authentication_token)
    }

    pub fn new(
        base_url: String,
        app_name: String,
        private_sign_key: openssl::pkey::PKey<openssl::pkey::Private>,
        bunq_public_sign_key: Option<openssl::pkey::PKey<openssl::pkey::Public>>,
        authentication_token: Option<String>,
    ) -> (r: Self)
        ensures
            r.spec_base_url() == base_url@,
            r.spec_app_name() == app_name@,
            r.spec_private_key() == private_sign_key,
            r.spec_server_key() == bunq_public_sign_key,
            r.spec_token() == opt_view(authentication_token),
    {
        Messenger {
            base_url,
            app_name,
            private_sign_key,
            bunq_public_sign_key,
            authentication_token,
        }
    }

    /// Whether the server's key is known, as `send` needs.
    pub fn knows_server_key(&self) -> (r: bool)
        ensures
            r == self.spec_server_key() is Some,
    {
        self.bunq_public_sign_key.is_some()
    }

    /// The bearer token that requests carry, if any.
    pub fn authentication_token(&self) -> (r: Option<&String>)
        ensures
            match r {
                Some(t) => self.spec_token() == Some(t@),
                None => self.spec_token() is None,
            },
    {
        match &self.authentication_token {
            Some(t) => Some(t),
            None => None,
        }
    }

    /// Replaces the bearer token that requests carry.
    pub fn set_authentication_token(&mut self, token: Option<String>)
        ensures
            final(self).spec_token() == opt_view(token),
            final(self).spec_base_url() == old(self).spec_base_url(),
            final(self).spec_app_name() == old(self).spec_app_name(),
            final(self).spec_private_key() == old(self).spec_private_key(),
            final(self).spec_server_key() == old(self).spec_server_key(),
    {
        self.authentication_token = token;
    }

    /// Signs the body with the private key: SHA-256, in base64.
    fn sign_body(&self, body: &str) -> (r: Result<String, MessageError>)
        ensures
            match r {
                Ok(s) => exists|sig: Seq<u8>| s@ == base64_text(sig),
                Err(e) => e is RequestBuildError,
            },
    {
        match sign_sha256(&self.private_sign_key, body.as_bytes()) {
            Ok(signature) => Ok(base64_encode(signature.as_slice())),
            Err(_) => Err(MessageError::RequestBuildError),
        }
    }

    /// The request for `endpoint`, with `signature` as the body's signature.
    pub fn request_with_signature(
        &self,
        method: HttpMethod,
        endpoint: &str,
        body: Option<String>,
        signature: Option<String>,
    ) -> (r: HttpRequest)
        ensures
            r.method == method,
            r.url@ == spec_url(self.spec_base_url(), endpoint@),
            r.body == body,
            header_view(r.headers@) == spec_headers(
                self.spec_app_name(),
                opt_view(signature),
                self.spec_token(),
            ),
    {
        let url = self.base_url.clone().concat("/").concat(endpoint);
        let mut headers: Vec<(String, String)> = Vec::new();
        headers.push((String::from_str("User-Agent"), self.app_name.clone()));
        headers.push((String::from_str("Cache-Control"), String::from_str("no-cache")));
        let ghost after_fixed = headers@;
        match signature {
            Some(s) => {
                headers.push((String::from_str("X-Client-Signature"), s));
            },
            None => {},
        }
        let ghost after_signature = headers@;
        match &self.authentication_token {
            Some(t) => {
                headers.push((String::from_str("X-Client-Authentication"), t.clone()));
            },
            None => {},
        }
        assert(header_view(after_fixed) =~= seq![
            ("User-Agent"@, self.spec_app_name()),
            ("Cache-Control"@, "no-cache"@),
        ]);
        assert(header_view(headers@) =~= spec_headers(
            self.spec_app_name(),
            opt_view(signature),
            self.spec_token(),
        ));
        HttpRequest { method, url, headers, body }
    }

    /// Builds a request: the body, where there is one, is signed with the private key.
    pub fn request(&self, method: HttpMethod, endpoint: &str, body: Option<String>) -> (r: Result<
        HttpRequest,
        MessageError,
    >)
        ensures
            match r {
                Ok(req) => {
                    &&& req.method == method
                    &&& req.url@ == spec_url(self.spec_base_url(), endpoint@)
                    &&& req.body == body
                    &&& body is None ==> headers_without_signature(*self, req)
                    &&& body is Some ==> headers_with_signature(*self, req)
                },
                Err(e) => body is Some && e is RequestBuildError,
            },
    {
        match &body {
            Some(text) => {
                let signature = self.sign_body(text.as_str())?;
                Ok(self.request_with_signature(method, endpoint, body, Some(signature)))
            },
            None => Ok(self.request_with_signature(method, endpoint, body, None)),
        }
    }

    /// Whether `signature` (base64) is the server's signature of `body`.
    fn verify_body_signature(&self, signature: &str, body: &[u8]) -> (r: bool)
        requires
            self.spec_server_key() is Some,
        ensures
            r == signature_verifies(*self, signature@, body@),
    {
        match base64_decode(signature) {
            Some(decoded) => match &self.bunq_public_sign_key {
                Some(key) => match verify_sha256(key, body, decoded.as_slice()) {
                    Ok(valid) => valid,
                    Err(_) => false,
                },
                None => false,
            },
            None => false,
        }
    }

    /// Decodes the reply to the one request that comes before the server's key is
    /// known; its signature is not checked.
    pub fn send_unverified(&self, response: HttpResponse) -> (r: Result<
        ApiResponse<Json>,
        MessageError,
    >)
        ensures
            match r {
                Ok(a) => envelope_of(response.body@, Ok(a.spec_body())) && a.spec_status()
                    == response.status,
                Err(MessageError::BodyParseError(e)) => envelope_of(response.body@, Err(e)),
                _ => false,
            },
    {
        decode_reply(&response)
    }

    /// Checks and decodes the reply to a verified request. A rate limit asks for the
    /// same request again; a reply without a valid server signature is refused before
    /// its body is read.
    pub fn send(&self, response: HttpResponse) -> (r: Result<Delivery, MessageError>)
        requires
            self.spec_server_key() is Some,
        ensures
            response.status == TOO_MANY_REQUESTS ==> r matches Ok(Delivery::RateLimited),
            response.status != TOO_MANY_REQUESTS && response.server_signature is None ==> (r matches Err(MessageError::InvalidServerSignature { .. })),
            response.status != TOO_MANY_REQUESTS && response.server_signature is Some
                && base64_bytes(response.server_signature->0@) is None ==> (r matches Err(MessageError::InvalidServerSignature { .. })),
            received(response, reply_verifies(*self, response), r),
            r matches Ok(Delivery::Delivered(_)) ==> reply_verifies(*self, response),
    {
        let valid = if response.status == TOO_MANY_REQUESTS {
            false
        } else {
            match &response.server_signature {
                Some(signature) => self.verify_body_signature(
                    signature.as_str(),
                    response.body.as_slice(),
                ),
                None => false,
            }
        };
        receive(&response, valid)
    }
}

} // verus!
