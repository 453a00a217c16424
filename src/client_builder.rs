//! The credential state machine: from a key of our own to a live session.
//!
//! Each stage is a type, and each transition consumes a builder at one stage and
//! returns a builder at the next, or a `BuildError` that hands the unchanged stage
//! back. A transition that talks to the server is split in two: a method that
//! builds the request, and the transition proper, which takes what came back.

use vstd::prelude::*;
use vstd::string::{StrSliceExecFns, StringExecFns};
use crate::client::{Client, SessionContext};
use crate::crypto::{
    generate_rsa_key, is_rsa_public_key_pem, public_key_from_pem, public_key_to_pem, KEY_BITS,
    MAX_PEM_CHARS, public_pem_of,
};
use crate::deserialization::{decode_single, spec_decode_single, Decode};
use crate::json::{Json, json_string_literal};
use crate::messenger::{
    headers_with_signature, spec_url, headers_without_signature, ApiResponse, HttpMethod, HttpRequest, MessageError, Messenger,
};
use crate::types::{
    json_string_list,
    ApiResponseBody, CreateDeviceServer, CreateInstallation, CreateSession, DeviceServerSmall,
    Installation, Session, User,
};

verus! {

/// Relies on PKey's Clone, which takes one more reference to the same key.
pub assume_specification<T>[ <openssl::pkey::PKey<T> as Clone>::clone ](
    key: &openssl::pkey::PKey<T>,
) -> (r: openssl::pkey::PKey<T>)
    ensures
        r == *key,
;

/// Has a session, but whether it is still valid is not known.
#[derive(Debug)]
pub struct UncheckedSession {
    pub session_token: String,
    pub registered_device_id: u32,
    pub bunq_api_key: String,
    pub installation_token: String,
    pub bunq_public_key: openssl::pkey::PKey<openssl::pkey::Public>,
}

/// Ready to create a session.
#[derive(Clone, Debug)]
pub struct Registered {
    pub registered_device_id: u32,
    pub bunq_api_key: String,
    pub installation_token: String,
    pub bunq_public_key: openssl::pkey::PKey<openssl::pkey::Public>,
}

/// Known to the server, which gave its key and an installation token.
#[derive(Clone, Debug)]
pub struct Installed {
    pub installation_token: String,
    pub bunq_public_key: openssl::pkey::PKey<openssl::pkey::Public>,
}

/// A session that has not been checked yet: the owner's id is dropped.
pub open spec fn unchecked_of(context: SessionContext) -> UncheckedSession {
    UncheckedSession {
        session_token: context.session_token,
        registered_device_id: context.registered_device_id,
        bunq_api_key: context.bunq_api_key,
        installation_token: context.installation_token,
        bunq_public_key: context.bunq_public_key,
    }
}

/// One stage back from a session: the session token is dropped.
pub open spec fn registered_of(session: UncheckedSession) -> Registered {
    Registered {
        installation_token: session.installation_token,
        registered_device_id: session.registered_device_id,
        bunq_api_key: session.bunq_api_key,
        bunq_public_key: session.bunq_public_key,
    }
}

/// One stage back from a registration: the secret and the device id are dropped.
pub open spec fn installed_of(registered: Registered) -> Installed {
    Installed {
        installation_token: registered.installation_token,
        bunq_public_key: registered.bunq_public_key,
    }
}

/// The stage that an installation reaches with this token and server key.
pub open spec fn installed_from(
    installation_token: String,
    bunq_public_key: openssl::pkey::PKey<openssl::pkey::Public>,
) -> Installed {
    Installed { installation_token, bunq_public_key }
}

/// The stage that a registration reaches from `installed`.
pub open spec fn registered_from(
    installed: Installed,
    bunq_api_key: String,
    registered_device_id: u32,
) -> Registered {
    Registered {
        registered_device_id,
        bunq_api_key,
        installation_token: installed.installation_token,
        bunq_public_key: installed.bunq_public_key,
    }
}

/// The stage that a new session reaches from `registered`.
pub open spec fn session_from(
    registered: Registered,
    session_token: String,
    owner_id: u32,
) -> SessionContext {
    SessionContext {
        owner_id,
        session_token,
        registered_device_id: registered.registered_device_id,
        bunq_api_key: registered.bunq_api_key,
        installation_token: registered.installation_token,
        bunq_public_key: registered.bunq_public_key,
    }
}

/// The stage that a successful check reaches from `unchecked`.
pub open spec fn checked_from(unchecked: UncheckedSession, owner_id: u32) -> SessionContext {
    SessionContext {
        owner_id,
        session_token: unchecked.session_token,
        registered_device_id: unchecked.registered_device_id,
        bunq_api_key: unchecked.bunq_api_key,
        installation_token: unchecked.installation_token,
        bunq_public_key: unchecked.bunq_public_key,
    }
}

impl From<SessionContext> for UncheckedSession {
    fn from(context: SessionContext) -> (r: Self) {
        UncheckedSession {
            session_token: context.session_token,
            registered_device_id: context.registered_device_id,
            bunq_api_key: context.bunq_api_key,
            installation_token: context.installation_token,
            bunq_public_key: context.bunq_public_key,
        }
    }
}

impl vstd::std_specs::convert::FromSpecImpl<SessionContext> for UncheckedSession {
    open spec fn obeys_from_spec() -> bool {
        true
    }

    open spec fn from_spec(v: SessionContext) -> UncheckedSession {
        unchecked_of(v)
    }
}

impl From<UncheckedSession> for Registered {
    fn from(context: UncheckedSession) -> (r: Self) {
        Registered {
            installation_token: context.installation_token,
            registered_device_id: context.registered_device_id,
            bunq_api_key: context.bunq_api_key,
            bunq_public_key: context.bunq_public_key,
        }
    }
}

impl vstd::std_specs::convert::FromSpecImpl<UncheckedSession> for Registered {
    open spec fn obeys_from_spec() -> bool {
        true
    }

    open spec fn from_spec(v: UncheckedSession) -> Registered {
        registered_of(v)
    }
}

impl From<Registered> for Installed {
    fn from(context: Registered) -> (r: Self) {
        Installed {
            installation_token: context.installation_token,
            bunq_public_key: context.bunq_public_key,
        }
    }
}

impl vstd::std_specs::convert::FromSpecImpl<Registered> for Installed {
    open spec fn obeys_from_spec() -> bool {
        true
    }

    open spec fn from_spec(v: Registered) -> Installed {
        installed_of(v)
    }
}

/// Installing again with the same reply gives back the same stage.
pub proof fn lemma_installed_rederived(installed: Installed)
    ensures
        installed_from(installed.installation_token, installed.bunq_public_key) == installed,
{
}

/// Stepping a registration back to its installation and registering again with the
/// same secret and the same device id from the server gives back the same stage.
pub proof fn lemma_registered_rederived(registered: Registered)
    ensures
        registered_from(
            installed_of(registered),
            registered.bunq_api_key,
            registered.registered_device_id,
        ) == registered,
{
}

/// Stepping a session back to its registration and creating a session again with the
/// same token and owner from the server gives back the same stage.
pub proof fn lemma_session_rederived(session: SessionContext)
    ensures
        session_from(
            registered_of(unchecked_of(session)),
            session.session_token,
            session.owner_id,
        ) == session,
{
}

/// Checking a session again with the same owner from the server gives back the same
/// stage.
pub proof fn lemma_checked_rederived(session: SessionContext)
    ensures
        checked_from(unchecked_of(session), session.owner_id) == session,
{
}

#[derive(Debug)]
pub enum BuildErrorReason {
    KeyCreationError(openssl::error::ErrorStack),
    KeySerialization(openssl::error::ErrorStack),
    KeyDeserializationError(openssl::error::ErrorStack),
    /// The request could not be built.
    BunqRequestError,
    /// No reply came, or it was refused, an error list, or not of the expected shape.
    BunqResponseError,
}

/// A transition that failed, with the stage that it started from.
#[derive(Debug)]
pub struct BuildError<T> {
    pub reason: BuildErrorReason,
    pub context: T,
}

pub struct ClientBuilder<T> {
    pub private_key: openssl::pkey::PKey<openssl::pkey::Private>,
    pub api_base_url: String,
    pub app_name: String,
    pub messenger: Messenger,
    pub context: T,
}

/// The payload of a reply, where the reply came and holds no error list.
pub open spec fn payload_of(outcome: Result<ApiResponse<Json>, MessageError>) -> Option<Json> {
    match outcome {
        Ok(a) => match a.spec_body() {
            ApiResponseBody::Payload(p) => Some(p),
            ApiResponseBody::Errors(_) => None,
        },
        Err(_) => None,
    }
}

/// What the reply to the installation call decodes to.
pub open spec fn installation_of(outcome: Result<ApiResponse<Json>, MessageError>) -> Option<
    Installation,
> {
    match payload_of(outcome) {
        Some(p) => Installation::spec_decode(p),
        None => None,
    }
}

/// What the reply to the registration call decodes to.
pub open spec fn device_of(outcome: Result<ApiResponse<Json>, MessageError>) -> Option<
    DeviceServerSmall,
> {
    match payload_of(outcome) {
        Some(p) => spec_decode_single::<DeviceServerSmall>(p),
        None => None,
    }
}

/// What the reply to the session call decodes to.
pub open spec fn session_of(outcome: Result<ApiResponse<Json>, MessageError>) -> Option<Session> {
    match payload_of(outcome) {
        Some(p) => Session::spec_decode(p),
        None => None,
    }
}

/// What the reply to the user listing decodes to.
pub open spec fn user_of(outcome: Result<ApiResponse<Json>, MessageError>) -> Option<User> {
    match payload_of(outcome) {
        Some(p) => spec_decode_single::<User>(p),
        None => None,
    }
}

impl<T> ClientBuilder<T> {
    /// The messenger speaks for this builder: same address, name and key.
    pub open spec fn wf(&self) -> bool {
        &&& self.messenger.spec_base_url() == self.api_base_url@
        &&& self.messenger.spec_app_name() == self.app_name@
        &&& self.messenger.spec_private_key() == self.private_key
    }

    /// `next` goes on from `self`, with the same address, name and key.
    pub open spec fn carried_to<U>(self, next: ClientBuilder<U>) -> bool {
        &&& next.wf()
        &&& next.api_base_url == self.api_base_url
        &&& next.app_name == self.app_name
        &&& next.private_key == self.private_key
    }

    /// A builder at `context`, whose messenger knows the server's key and uses `token`.
    fn with_context<U>(
        api_base_url: String,
        app_name: String,
        private_key: openssl::pkey::PKey<openssl::pkey::Private>,
        bunq_public_key: &openssl::pkey::PKey<openssl::pkey::Public>,
        token: &String,
        context: U,
    ) -> (r: ClientBuilder<U>)
        ensures
            r.wf(),
            r.api_base_url == api_base_url,
            r.app_name == app_name,
            r.private_key == private_key,
            r.context == context,
            r.messenger.spec_server_key() == Some(*bunq_public_key),
            r.messenger.spec_token() == Some(token@),
    {
        let messenger = Messenger::new(
            api_base_url.clone(),
            app_name.clone(),
            private_key.clone(),
            Some(bunq_public_key.clone()),
            Some(token.clone()),
        );
        ClientBuilder { api_base_url, app_name, private_key, messenger, context }
    }
}

impl ClientBuilder<()> {
    /// A builder with the given private key, before any exchange with the server.
    pub fn new_with_key(
        api_base_url: String,
        app_name: String,
        private_key: openssl::pkey::PKey<openssl::pkey::Private>,
    ) -> (r: Self)
        ensures
            r.wf(),
            r.api_base_url == api_base_url,
            r.app_name == app_name,
            r.private_key == private_key,
            r.messenger.spec_server_key() is None,
            r.messenger.spec_token() is None,
    {
        let messenger = Messenger::new(
            api_base_url.clone(),
            app_name.clone(),
            private_key.clone(),
            None,
            None,
        );
        ClientBuilder { api_base_url, app_name, private_key, messenger, context: () }
    }

    /// A builder with a newly generated key pair.
    pub fn new_without_key(api_base_url: String, app_name: String) -> (r: Result<
        Self,
        BuildError<()>,
    >)
        ensures
            match r {
                Ok(b) => {
                    &&& b.wf()
                    &&& b.api_base_url == api_base_url
                    &&& b.app_name == app_name
                    &&& b.messenger.spec_server_key() is None
                    &&& b.messenger.spec_token() is None
                },
                Err(e) => e.reason is KeyCreationError,
            },
    {
        match generate_rsa_key(KEY_BITS) {
            Ok(private_key) => Ok(Self::new_with_key(api_base_url, app_name, private_key)),
            Err(error) => Err(
                BuildError { reason: BuildErrorReason::KeyCreationError(error), context: () },
            ),
        }
    }

    /// The installation request: our public key, posted to `installation`.
    pub fn installation_request(&self) -> (r: Result<HttpRequest, BuildErrorReason>)
        requires
            self.wf(),
        ensures
            match r {
                Ok(req) => {
                    &&& req.method == HttpMethod::Post
                    &&& req.url@ == spec_url(self.api_base_url@, "installation"@)
                    &&& headers_with_signature(self.messenger, req)
                    &&& public_pem_of(self.private_key) is Some
                    &&& req.body matches Some(b) && b@ == "{\"client_public_key\":"@
                        + json_string_literal(public_pem_of(self.private_key)->0) + "}"@
                },
                Err(e) => if public_pem_of(self.private_key) is None {
                    e is KeySerialization
                } else {
                    // signing the body failed in openssl
                    e is BunqRequestError
                },
            },
    {
        let client_public_key = match public_key_to_pem(&self.private_key) {
            Ok(pem) => pem,
            Err(error) => {
                return Err(BuildErrorReason::KeySerialization(error));
            },
        };
        let body = CreateInstallation { client_public_key };
        let text = body.to_json();
        match self.messenger.request(HttpMethod::Post, "installation", Some(text)) {
            Ok(req) => Ok(req),
            Err(_) => Err(BuildErrorReason::BunqRequestError),
        }
    }

    /// Takes the reply to the installation request: the server's key and the
    /// installation token, which becomes the bearer token.
    pub fn install_device(self, outcome: Result<ApiResponse<Json>, MessageError>) -> (r: Result<
        ClientBuilder<Installed>,
        BuildError<()>,
    >)
        ensures
            match installation_of(outcome) {
                None => r matches Err(e) && e.reason is BunqResponseError,
                Some(inst) => if inst.bunq_public_key@.len() > MAX_PEM_CHARS {
                    r matches Err(e) && e.reason is BunqResponseError
                } else if is_rsa_public_key_pem(inst.bunq_public_key@) {
                    r matches Ok(b) && self.carried_to(b) && b.context.installation_token
                        == inst.token.token && b.messenger.spec_server_key() == Some(
                        b.context.bunq_public_key,
                    ) && b.messenger.spec_token() == Some(inst.token.token@)
                } else {
                    r matches Err(e) && e.reason is KeyDeserializationError
                },
            },
    {
        let payload = match outcome {
            Ok(response) => match response.into_body() {
                ApiResponseBody::Payload(p) => p,
                ApiResponseBody::Errors(_) => {
                    return Err(
                        BuildError { reason: BuildErrorReason::BunqResponseError, context: () },
                    );
                },
            },
            Err(_) => {
                return Err(BuildError { reason: BuildErrorReason::BunqResponseError, context: () });
            },
        };
        let installation = match Installation::decode(&payload) {
            Ok(i) => i,
            Err(_) => {
                return Err(BuildError { reason: BuildErrorReason::BunqResponseError, context: () });
            },
        };
        if installation.bunq_public_key.as_str().unicode_len() > MAX_PEM_CHARS {
            return Err(BuildError { reason: BuildErrorReason::BunqResponseError, context: () });
        }
        let bunq_public_key = match public_key_from_pem(installation.bunq_public_key.as_str()) {
            Ok(key) => key,
            Err(error) => {
                return Err(
                    BuildError {
                        reason: BuildErrorReason::KeyDeserializationError(error),
                        context: (),
                    },
                );
            },
        };
        let token = installation.token.token;
        let context = Installed { installation_token: token.clone(), bunq_public_key: bunq_public_key.clone() };
        Ok(
            Self::with_context(
                self.api_base_url,
                self.app_name,
                self.private_key,
                &bunq_public_key,
                &token,
                context,
            ),
        )
    }
}

impl ClientBuilder<Installed> {
    /// An installed builder, from a stage kept from an earlier run.
    pub fn from_installation(
        context: Installed,
        api_base_url: String,
        app_name: String,
        private_key: openssl::pkey::PKey<openssl::pkey::Private>,
    ) -> (r: Self)
        ensures
            r.wf(),
            r.api_base_url == api_base_url,
            r.app_name == app_name,
            r.private_key == private_key,
            r.context == context,
            r.messenger.spec_server_key() == Some(context.bunq_public_key),
            r.messenger.spec_token() == Some(context.installation_token@),
    {
        let key = context.bunq_public_key.clone();
        let token = context.installation_token.clone();
        Self::with_context(api_base_url, app_name, private_key, &key, &token, context)
    }

    /// The registration request: the account's secret and a description of this
    /// device, posted to `device-server` with no IP restriction.
    pub fn registration_request(&self, bunq_api_key: &str, device_description: &str) -> (r:
        Result<HttpRequest, BuildErrorReason>)
        requires
            self.wf(),
        ensures
            match r {
                Ok(req) => {
                    &&& req.method == HttpMethod::Post
                    &&& req.url@ == spec_url(self.api_base_url@, "device-server"@)
                    &&& headers_with_signature(self.messenger, req)
                    &&& req.body matches Some(b) && b@ == "{\"secret\":"@ + json_string_literal(
                        bunq_api_key@,
                    ) + ",\"description\":"@ + json_string_literal(device_description@)
                        + ",\"permitted_ips\":[]}"@
                },
                // signing the body failed in openssl
                Err(e) => e is BunqRequestError,
            },
    {
        let body = CreateDeviceServer {
            bunq_api_key: String::from_str(bunq_api_key),
            description: String::from_str(device_description),
            permitted_ips: Vec::new(),
        };
        let text = body.to_json();
        assert(body.permitted_ips@ =~= Seq::<String>::empty());
        proof {
            reveal_strlit(",\"permitted_ips\":[");
            reveal_strlit("]}");
            reveal_strlit(",\"permitted_ips\":[]}");
            assert(",\"permitted_ips\":["@ + json_string_list(body.permitted_ips@) + "]}"@
                =~= ",\"permitted_ips\":[]}"@);
        }
        match self.messenger.request(HttpMethod::Post, "device-server", Some(text)) {
            Ok(req) => Ok(req),
            Err(_) => Err(BuildErrorReason::BunqRequestError),
        }
    }

    /// Takes the reply to the registration request: the device id, which with the
    /// secret makes the registered stage.
    pub fn register_device(
        self,
        bunq_api_key: String,
        outcome: Result<ApiResponse<Json>, MessageError>,
    ) -> (r: Result<ClientBuilder<Registered>, BuildError<Installed>>)
        requires
            self.wf(),
        ensures
            match device_of(outcome) {
                None => r matches Err(e) && e.reason is BunqResponseError && e.context
                    == self.context,
                Some(device) => r matches Ok(b) && self.carried_to(b) && b.context
                    == registered_from(self.context, bunq_api_key, device.id)
                    && b.messenger == self.messenger,
            },
    {
        let device = match payload_of_reply(outcome) {
            Some(p) => decode_single::<DeviceServerSmall>(&p),
            None => {
                return Err(
                    BuildError { reason: BuildErrorReason::BunqResponseError, context: self.context },
                );
            },
        };
        match device {
            Ok(device) => Ok(
                ClientBuilder {
                    api_base_url: self.api_base_url,
                    app_name: self.app_name,
                    private_key: self.private_key,
                    messenger: self.messenger,
                    context: Registered {
                        registered_device_id: device.0.id,
                        bunq_api_key,
                        installation_token: self.context.installation_token,
                        bunq_public_key: self.context.bunq_public_key,
                    },
                },
            ),
            Err(_) => Err(
                BuildError { reason: BuildErrorReason::BunqResponseError, context: self.context },
            ),
        }
    }
}

/// The payload of a reply, where the reply came and holds no error list.
fn payload_of_reply(outcome: Result<ApiResponse<Json>, MessageError>) -> (r: Option<Json>)
    ensures
        r == payload_of(outcome),
{
    match outcome {
        Ok(response) => match response.into_body() {
            ApiResponseBody::Payload(p) => Some(p),
            ApiResponseBody::Errors(_) => None,
        },
        Err(_) => None,
    }
}

impl ClientBuilder<Registered> {
    /// A registered builder, from a stage kept from an earlier run.
    pub fn from_registration(
        context: Registered,
        api_base_url: String,
        app_name: String,
        private_key: openssl::pkey::PKey<openssl::pkey::Private>,
    ) -> (r: Self)
        ensures
            r.wf(),
            r.api_base_url == api_base_url,
            r.app_name == app_name,
            r.private_key == private_key,
            r.context == context,
            r.messenger.spec_server_key() == Some(context.bunq_public_key),
            r.messenger.spec_token() == Some(context.installation_token@),
    {
        let key = context.bunq_public_key.clone();
        let token = context.installation_token.clone();
        Self::with_context(api_base_url, app_name, private_key, &key, &token, context)
    }

    /// The session request: the account's secret, posted to `session-server`.
    pub fn session_request(&self) -> (r: Result<HttpRequest, BuildErrorReason>)
        requires
            self.wf(),
        ensures
            match r {
                Ok(req) => {
                    &&& req.method == HttpMethod::Post
                    &&& req.url@ == spec_url(self.api_base_url@, "session-server"@)
                    &&& headers_with_signature(self.messenger, req)
                    &&& req.body matches Some(b) && b@ == "{\"secret\":"@ + json_string_literal(
                        self.context.bunq_api_key@,
                    ) + "}"@
                },
                // signing the body failed in openssl
                Err(e) => e is BunqRequestError,
            },
    {
        let body = CreateSession { bunq_api_key: self.context.bunq_api_key.clone() };
        let text = body.to_json();
        match self.messenger.request(HttpMethod::Post, "session-server", Some(text)) {
            Ok(req) => Ok(req),
            Err(_) => Err(BuildErrorReason::BunqRequestError),
        }
    }

    /// Takes the reply to the session request: the session token, which becomes the
    /// bearer token, and the owner's id.
    pub fn create_session(self, outcome: Result<ApiResponse<Json>, MessageError>) -> (r: Result<
        ClientBuilder<SessionContext>,
        BuildError<Registered>,
    >)
        requires
            self.wf(),
        ensures
            match session_of(outcome) {
                None => r matches Err(e) && e.reason is BunqResponseError && e.context
                    == self.context,
                Some(session) => r matches Ok(b) && self.carried_to(b) && b.context
                    == session_from(self.context, session.token.token, session.user_person.id)
                    && b.messenger.spec_server_key() == Some(
                    self.context.bunq_public_key,
                ) && b.messenger.spec_token() == Some(session.token.token@),
            },
    {
        let session = match payload_of_reply(outcome) {
            Some(p) => Session::decode(&p),
            None => {
                return Err(
                    BuildError { reason: BuildErrorReason::BunqResponseError, context: self.context },
                );
            },
        };
        match session {
            Ok(session) => {
                let session_token = session.token.token;
                let key = self.context.bunq_public_key.clone();
                let context = SessionContext {
                    owner_id: session.user_person.id,
                    session_token: session_token.clone(),
                    registered_device_id: self.context.registered_device_id,
                    bunq_api_key: self.context.bunq_api_key,
                    installation_token: self.context.installation_token,
                    bunq_public_key: self.context.bunq_public_key,
                };
                Ok(
                    Self::with_context(
                        self.api_base_url,
                        self.app_name,
                        self.private_key,
                        &key,
                        &session_token,
                        context,
                    ),
                )
            },
            Err(_) => Err(
                BuildError { reason: BuildErrorReason::BunqResponseError, context: self.context },
            ),
        }
    }
}

impl ClientBuilder<UncheckedSession> {
    /// A builder with a session kept from an earlier run, not checked yet.
    pub fn from_unchecked_session(
        context: UncheckedSession,
        api_base_url: String,
        app_name: String,
        private_key: openssl::pkey::PKey<openssl::pkey::Private>,
    ) -> (r: Self)
        ensures
            r.wf(),
            r.api_base_url == api_base_url,
            r.app_name == app_name,
            r.private_key == private_key,
            r.context == context,
            r.messenger.spec_server_key() == Some(context.bunq_public_key),
            r.messenger.spec_token() == Some(context.session_token@),
    {
        let key = context.bunq_public_key.clone();
        let token = context.session_token.clone();
        Self::with_context(api_base_url, app_name, private_key, &key, &token, context)
    }

    /// The check request: the user listing, fetched with the session token.
    pub fn check_session_request(&self) -> (r: Result<HttpRequest, MessageError>)
        ensures
            match r {
                Ok(req) => {
                    &&& req.method == HttpMethod::Get
                    &&& req.url@ == spec_url(self.messenger.spec_base_url(), "user"@)
                    &&& req.body is None
                    &&& headers_without_signature(self.messenger, req)
                },
                Err(_) => false,
            },
    {
        self.messenger.request(HttpMethod::Get, "user", None)
    }

    /// Takes the reply to the check request. A user listing with one user confirms
    /// the session, with that user as its owner; anything else hands the unchecked
    /// stage back.
    pub fn check_session(self, outcome: Result<ApiResponse<Json>, MessageError>) -> (r: Result<
        ClientBuilder<SessionContext>,
        BuildError<UncheckedSession>,
    >)
        requires
            self.wf(),
        ensures
            match user_of(outcome) {
                None => r matches Err(e) && e.reason is BunqResponseError && e.context
                    == self.context,
                Some(user) => r matches Ok(b) && self.carried_to(b) && b.context
                    == checked_from(self.context, user.user_person.id)
                    && b.messenger == self.messenger,
            },
    {
        let user = match payload_of_reply(outcome) {
            Some(p) => decode_single::<User>(&p),
            None => {
                return Err(
                    BuildError { reason: BuildErrorReason::BunqResponseError, context: self.context },
                );
            },
        };
        match user {
            Ok(user) => Ok(
                ClientBuilder {
                    api_base_url: self.api_base_url,
                    app_name: self.app_name,
                    private_key: self.private_key,
                    messenger: self.messenger,
                    context: SessionContext {
                        owner_id: user.0.user_person.id,
                        session_token: self.context.session_token,
                        registered_device_id: self.context.registered_device_id,
                        bunq_api_key: self.context.bunq_api_key,
                        installation_token: self.context.installation_token,
                        bunq_public_key: self.context.bunq_public_key,
                    },
                },
            ),
            Err(_) => Err(
                BuildError { reason: BuildErrorReason::BunqResponseError, context: self.context },
            ),
        }
    }
}

impl ClientBuilder<SessionContext> {
    /// The client for this session.
    pub fn build(self) -> (r: Client)
        ensures
            r.api_base_url == self.api_base_url,
            r.app_name == self.app_name,
            r.private_key == self.private_key,
            r.messenger == self.messenger,
            r.context == self.context,
    {
        Client {
            api_base_url: self.api_base_url,
            app_name: self.app_name,
            private_key: self.private_key,
            messenger: self.messenger,
            context: self.context,
        }
    }
}

} // verus!
