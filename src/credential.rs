//! The credential as one tagged value, one variant per stage of the bootstrap.
//!
//! Stages form a line: each carries every field of the one before it. Stepping
//! back drops the fields of the latest stage; stepping forward adds what one
//! exchange with the server (or, first, a key) supplied.

use vstd::prelude::*;
use vstd::string::StrSliceExecFns;
use crate::client::SessionContext;
use crate::crypto::{
    is_private_key_pem, is_rsa_public_key_pem, private_key_from_pem, private_key_to_pem,
    private_pem_of, public_key_from_pem, server_key_to_pem, server_pem_of, MAX_PEM_CHARS,
};
use crate::client_builder::{
    installed_from, installed_of, registered_from, registered_of, session_from, unchecked_of,
    Installed, Registered, UncheckedSession,
};

verus! {

#[derive(Debug)]
pub enum Credential {
    Uninitialized,
    Initialized { private_key: openssl::pkey::PKey<openssl::pkey::Private> },
    Installed {
        private_key: openssl::pkey::PKey<openssl::pkey::Private>,
        installed: Installed,
    },
    Registered {
        private_key: openssl::pkey::PKey<openssl::pkey::Private>,
        registered: Registered,
    },
    Session { private_key: openssl::pkey::PKey<openssl::pkey::Private>, session: SessionContext },
    /// A session loaded from storage, not known to be valid.
    UncheckedSession {
        private_key: openssl::pkey::PKey<openssl::pkey::Private>,
        session: UncheckedSession,
    },
}

/// What one step forward adds.
pub enum Advance {
    Key(openssl::pkey::PKey<openssl::pkey::Private>),
    Installation {
        installation_token: String,
        bunq_public_key: openssl::pkey::PKey<openssl::pkey::Public>,
    },
    Registration { bunq_api_key: String, registered_device_id: u32 },
    NewSession { session_token: String, owner_id: u32 },
}

/// The stage's place in the line; an unchecked session stands where a session does.
pub open spec fn stage(c: Credential) -> nat {
    match c {
        Credential::Uninitialized => 0,
        Credential::Initialized { .. } => 1,
        Credential::Installed { .. } => 2,
        Credential::Registered { .. } => 3,
        Credential::Session { .. } => 4,
        Credential::UncheckedSession { .. } => 4,
    }
}

/// One stage back; the first stage stays where it is.
pub open spec fn spec_downgrade(c: Credential) -> Credential {
    match c {
        Credential::Uninitialized => Credential::Uninitialized,
        Credential::Initialized { .. } => Credential::Uninitialized,
        Credential::Installed { private_key, .. } => Credential::Initialized { private_key },
        Credential::Registered { private_key, registered } => Credential::Installed {
            private_key,
            installed: installed_of(registered),
        },
        Credential::Session { private_key, session } => Credential::Registered {
            private_key,
            registered: registered_of(unchecked_of(session)),
        },
        Credential::UncheckedSession { private_key, session } => Credential::Registered {
            private_key,
            registered: registered_of(session),
        },
    }
}

/// One stage forward with `step`, where `step` is what this stage needs.
pub open spec fn spec_advance(c: Credential, step: Advance) -> Option<Credential> {
    match (c, step) {
        (Credential::Uninitialized, Advance::Key(private_key)) => Some(
            Credential::Initialized { private_key },
        ),
        (
            Credential::Initialized { private_key },
            Advance::Installation { installation_token, bunq_public_key },
        ) => Some(
            Credential::Installed {
                private_key,
                installed: installed_from(installation_token, bunq_public_key),
            },
        ),
        (
            Credential::Installed { private_key, installed },
            Advance::Registration { bunq_api_key, registered_device_id },
        ) => Some(
            Credential::Registered {
                private_key,
                registered: registered_from(installed, bunq_api_key, registered_device_id),
            },
        ),
        (
            Credential::Registered { private_key, registered },
            Advance::NewSession { session_token, owner_id },
        ) => Some(
            Credential::Session {
                private_key,
                session: session_from(registered, session_token, owner_id),
            },
        ),
        _ => None,
    }
}

/// What the step into `c` supplied.
pub open spec fn inputs_of(c: Credential) -> Option<Advance> {
    match c {
        Credential::Initialized { private_key } => Some(Advance::Key(private_key)),
        Credential::Installed { installed, .. } => Some(
            Advance::Installation {
                installation_token: installed.installation_token,
                bunq_public_key: installed.bunq_public_key,
            },
        ),
        Credential::Registered { registered, .. } => Some(
            Advance::Registration {
                bunq_api_key: registered.bunq_api_key,
                registered_device_id: registered.registered_device_id,
            },
        ),
        Credential::Session { session, .. } => Some(
            Advance::NewSession { session_token: session.session_token, owner_id: session.owner_id },
        ),
        _ => None,
    }
}

/// Stepping any stage of the line back one stage and forward again with what the
/// server supplied the first time gives back the same credential, field for field.
pub proof fn lemma_downgrade_then_replay(c: Credential)
    requires
        stage(c) > 0,
        !(c is UncheckedSession),
    ensures
        inputs_of(c) is Some,
        spec_advance(spec_downgrade(c), inputs_of(c)->0) == Some(c),
{
}

/// Stepping back drops exactly one stage, down to the first.
pub proof fn lemma_downgrade_one_stage(c: Credential)
    ensures
        stage(spec_downgrade(c)) == if stage(c) == 0 {
            0
        } else {
            (stage(c) - 1) as nat
        },
{
}

impl Credential {
    /// One stage back, dropping the fields of the latest stage.
    pub fn downgrade(self) -> (r: Credential)
        ensures
            r == spec_downgrade(self),
    {
        match self {
            Credential::Uninitialized => Credential::Uninitialized,
            Credential::Initialized { .. } => Credential::Uninitialized,
            Credential::Installed { private_key, .. } => Credential::Initialized { private_key },
            Credential::Registered { private_key, registered } => Credential::Installed {
                private_key,
                installed: Installed::from(registered),
            },
            Credential::Session { private_key, session } => Credential::Registered {
                private_key,
                registered: Registered::from(UncheckedSession::from(session)),
            },
            Credential::UncheckedSession { private_key, session } => Credential::Registered {
                private_key,
                registered: Registered::from(session),
            },
        }
    }

    /// One stage forward with `step`; where `step` is not what this stage needs, the
    /// credential comes back unchanged as the error.
    pub fn advance(self, step: Advance) -> (r: Result<Credential, Credential>)
        ensures
            match spec_advance(self, step) {
                Some(next) => r == Ok::<Credential, Credential>(next),
                None => r == Err::<Credential, Credential>(self),
            },
    {
        match (self, step) {
            (Credential::Uninitialized, Advance::Key(private_key)) => Ok(
                Credential::Initialized { private_key },
            ),
            (
                Credential::Initialized { private_key },
                Advance::Installation { installation_token, bunq_public_key },
            ) => Ok(
                Credential::Installed {
                    private_key,
                    installed: Installed { installation_token, bunq_public_key },
                },
            ),
            (
                Credential::Installed { private_key, installed },
                Advance::Registration { bunq_api_key, registered_device_id },
            ) => Ok(
                Credential::Registered {
                    private_key,
                    registered: Registered {
                        registered_device_id,
                        bunq_api_key,
                        installation_token: installed.installation_token,
                        bunq_public_key: installed.bunq_public_key,
                    },
                },
            ),
            (
                Credential::Registered { private_key, registered },
                Advance::NewSession { session_token, owner_id },
            ) => Ok(
                Credential::Session {
                    private_key,
                    session: SessionContext {
                        owner_id,
                        session_token,
                        registered_device_id: registered.registered_device_id,
                        bunq_api_key: registered.bunq_api_key,
                        installation_token: registered.installation_token,
                        bunq_public_key: registered.bunq_public_key,
                    },
                },
            ),
            (c, _) => Err(c),
        }
    }
}

/// The flat form in which a credential is stored: keys as PEM text, and every field
/// that the stage has; the fields of later stages are absent.
#[derive(Debug, Clone, Default)]
pub struct CredentialRecord {
    pub private_key: Option<String>,
    pub installation_token: Option<String>,
    pub bunq_public_key: Option<String>,
    pub bunq_api_key: Option<String>,
    pub registered_device_id: Option<u32>,
    pub session_token: Option<String>,
    pub owner_id: Option<u32>,
}

/// Why a credential could not be stored or loaded.
#[derive(Debug)]
pub enum RecordError {
    /// A key in the record is not PEM that openssl reads.
    KeyFormat(openssl::error::ErrorStack),
    /// A key in the record is longer than `MAX_PEM_CHARS` characters.
    KeyTooLarge,
    /// A key could not be written as PEM.
    KeySerialization(openssl::error::ErrorStack),
}

/// The furthest stage whose fields the record holds, each stage needing all earlier
/// ones; a stored session is not known to be valid, so it loads unchecked.
pub open spec fn record_stage(rec: CredentialRecord) -> nat {
    if rec.private_key is None {
        0
    } else if !(rec.installation_token is Some && rec.bunq_public_key is Some) {
        1
    } else if !(rec.bunq_api_key is Some && rec.registered_device_id is Some) {
        2
    } else if rec.session_token is None {
        3
    } else {
        4
    }
}

/// The text fields and ids of `c` are those of the record.
pub open spec fn holds_record(c: Credential, rec: CredentialRecord) -> bool {
    match c {
        Credential::Uninitialized => true,
        Credential::Initialized { .. } => true,
        Credential::Installed { installed, .. } => rec.installation_token == Some(
            installed.installation_token,
        ),
        Credential::Registered { registered, .. } => {
            &&& rec.installation_token == Some(registered.installation_token)
            &&& rec.bunq_api_key == Some(registered.bunq_api_key)
            &&& rec.registered_device_id == Some(registered.registered_device_id)
        },
        Credential::UncheckedSession { session, .. } => {
            &&& rec.installation_token == Some(session.installation_token)
            &&& rec.bunq_api_key == Some(session.bunq_api_key)
            &&& rec.registered_device_id == Some(session.registered_device_id)
            &&& rec.session_token == Some(session.session_token)
        },
        Credential::Session { session, .. } => {
            &&& rec.installation_token == Some(session.installation_token)
            &&& rec.bunq_api_key == Some(session.bunq_api_key)
            &&& rec.registered_device_id == Some(session.registered_device_id)
            &&& rec.session_token == Some(session.session_token)
            &&& rec.owner_id == Some(session.owner_id)
        },
    }
}

/// The private key of `c`, where its stage has one.
pub open spec fn private_key_of(c: Credential) -> Option<openssl::pkey::PKey<openssl::pkey::Private>> {
    match c {
        Credential::Uninitialized => None,
        Credential::Initialized { private_key } => Some(private_key),
        Credential::Installed { private_key, .. } => Some(private_key),
        Credential::Registered { private_key, .. } => Some(private_key),
        Credential::Session { private_key, .. } => Some(private_key),
        Credential::UncheckedSession { private_key, .. } => Some(private_key),
    }
}

/// The server's key held by `c`, where its stage has one.
pub open spec fn server_key_of(c: Credential) -> Option<openssl::pkey::PKey<openssl::pkey::Public>> {
    match c {
        Credential::Installed { installed, .. } => Some(installed.bunq_public_key),
        Credential::Registered { registered, .. } => Some(registered.bunq_public_key),
        Credential::Session { session, .. } => Some(session.bunq_public_key),
        Credential::UncheckedSession { session, .. } => Some(session.bunq_public_key),
        _ => None,
    }
}

/// openssl writes every key that `c` holds as PEM.
pub open spec fn pems_writable(c: Credential) -> bool {
    &&& match private_key_of(c) {
        Some(k) => private_pem_of(k) is Some,
        None => true,
    }
    &&& match server_key_of(c) {
        Some(k) => server_pem_of(k) is Some,
        None => true,
    }
}

/// The record holds the PEM text of each key of `c`, and no key that `c` lacks.
pub open spec fn record_keys_of(c: Credential, rec: CredentialRecord) -> bool {
    &&& match private_key_of(c) {
        Some(k) => rec.private_key is Some && private_pem_of(k) == Some(rec.private_key->0@),
        None => rec.private_key is None,
    }
    &&& match server_key_of(c) {
        Some(k) => rec.bunq_public_key is Some && server_pem_of(k) == Some(
            rec.bunq_public_key->0@,
        ),
        None => rec.bunq_public_key is None,
    }
}

/// The keys that the record's stage needs are no longer than the PEM readers take.
pub open spec fn record_keys_bounded(rec: CredentialRecord) -> bool {
    &&& record_stage(rec) >= 1 ==> rec.private_key->0@.len() <= MAX_PEM_CHARS
    &&& record_stage(rec) >= 2 ==> rec.bunq_public_key->0@.len() <= MAX_PEM_CHARS
}

/// The keys that the record's stage needs are PEM that openssl reads.
pub open spec fn record_keys_readable(rec: CredentialRecord) -> bool {
    &&& record_stage(rec) >= 1 ==> is_private_key_pem(rec.private_key->0@)
    &&& record_stage(rec) >= 2 ==> is_rsa_public_key_pem(rec.bunq_public_key->0@)
}

impl Credential {
    /// Loads a stored credential at the furthest stage that the record holds.
    pub fn from_record(rec: &CredentialRecord) -> (r: Result<Credential, RecordError>)
        ensures
            match r {
                Ok(c) => stage(c) == record_stage(*rec) && !(c is Session) && holds_record(
                    c,
                    *rec,
                ) && record_keys_bounded(*rec) && record_keys_readable(*rec),
                Err(e) => if record_keys_bounded(*rec) {
                    e is KeyFormat && !record_keys_readable(*rec)
                } else {
                    e is KeyTooLarge
                },
            },
    {
        let private_pem = match &rec.private_key {
            Some(p) => p,
            None => {
                return Ok(Credential::Uninitialized);
            },
        };
        if private_pem.as_str().unicode_len() > MAX_PEM_CHARS {
            return Err(RecordError::KeyTooLarge);
        }
        match (&rec.installation_token, &rec.bunq_public_key) {
            (Some(_), Some(k)) => if k.as_str().unicode_len() > MAX_PEM_CHARS {
                return Err(RecordError::KeyTooLarge);
            },
            _ => {},
        }
        let private_key = match private_key_from_pem(private_pem.as_str()) {
            Ok(k) => k,
            Err(e) => {
                return Err(RecordError::KeyFormat(e));
            },
        };
        let (token, server_pem) = match (&rec.installation_token, &rec.bunq_public_key) {
            (Some(t), Some(k)) => (t, k),
            _ => {
                return Ok(Credential::Initialized { private_key });
            },
        };
        let bunq_public_key = match public_key_from_pem(server_pem.as_str()) {
            Ok(k) => k,
            Err(e) => {
                return Err(RecordError::KeyFormat(e));
            },
        };
        let (api_key, device_id) = match (&rec.bunq_api_key, rec.registered_device_id) {
            (Some(a), Some(d)) => (a, d),
            _ => {
                return Ok(
                    Credential::Installed {
                        private_key,
                        installed: Installed { installation_token: token.clone(), bunq_public_key },
                    },
                );
            },
        };
        match &rec.session_token {
            None => Ok(
                Credential::Registered {
                    private_key,
                    registered: Registered {
                        registered_device_id: device_id,
                        bunq_api_key: api_key.clone(),
                        installation_token: token.clone(),
                        bunq_public_key,
                    },
                },
            ),
            Some(session_token) => Ok(
                Credential::UncheckedSession {
                    private_key,
                    session: UncheckedSession {
                        session_token: session_token.clone(),
                        registered_device_id: device_id,
                        bunq_api_key: api_key.clone(),
                        installation_token: token.clone(),
                        bunq_public_key,
                    },
                },
            ),
        }
    }

    /// The record to store: the keys as PEM, every field of the stage, and nothing of
    /// later stages.
    pub fn to_record(&self) -> (r: Result<CredentialRecord, RecordError>)
        ensures
            match r {
                Ok(rec) => {
                    &&& record_stage(rec) == stage(*self)
                    &&& holds_record(*self, rec)
                    &&& record_keys_of(*self, rec)
                    &&& stage(*self) < 4 ==> rec.session_token is None
                    &&& !(*self is Session) ==> rec.owner_id is None
                },
                // openssl failed to write a key as PEM
                Err(e) => e is KeySerialization,
            },
            r is Ok <==> pems_writable(*self),
    {
        let mut rec = CredentialRecord {
            private_key: None,
            installation_token: None,
            bunq_public_key: None,
            bunq_api_key: None,
            registered_device_id: None,
            session_token: None,
            owner_id: None,
        };
        let (private_key, installation_token, server_key) = match self {
            Credential::Uninitialized => {
                return Ok(rec);
            },
            Credential::Initialized { private_key } => (private_key, None, None),
            Credential::Installed { private_key, installed } => (
                private_key,
                Some(&installed.installation_token),
                Some(&installed.bunq_public_key),
            ),
            Credential::Registered { private_key, registered } => (
                private_key,
                Some(&registered.installation_token),
                Some(&registered.bunq_public_key),
            ),
            Credential::UncheckedSession { private_key, session } => (
                private_key,
                Some(&session.installation_token),
                Some(&session.bunq_public_key),
            ),
            Credential::Session { private_key, session } => (
                private_key,
                Some(&session.installation_token),
                Some(&session.bunq_public_key),
            ),
        };
        match private_key_to_pem(private_key) {
            Ok(pem) => {
                rec.private_key = Some(pem);
            },
            Err(e) => {
                return Err(RecordError::KeySerialization(e));
            },
        }
        match (installation_token, server_key) {
            (Some(token), Some(key)) => {
                rec.installation_token = Some(token.clone());
                match server_key_to_pem(key) {
                    Ok(pem) => {
                        rec.bunq_public_key = Some(pem);
                    },
                    Err(e) => {
                        return Err(RecordError::KeySerialization(e));
                    },
                }
            },
            _ => {},
        }
        match self {
            Credential::Registered { registered, .. } => {
                rec.bunq_api_key = Some(registered.bunq_api_key.clone());
                rec.registered_device_id = Some(registered.registered_device_id);
            },
            Credential::UncheckedSession { session, .. } => {
                rec.bunq_api_key = Some(session.bunq_api_key.clone());
                rec.registered_device_id = Some(session.registered_device_id);
                rec.session_token = Some(session.session_token.clone());
            },
            Credential::Session { session, .. } => {
                rec.bunq_api_key = Some(session.bunq_api_key.clone());
                rec.registered_device_id = Some(session.registered_device_id);
                rec.session_token = Some(session.session_token.clone());
                rec.owner_id = Some(session.owner_id);
            },
            _ => {},
        }
        Ok(rec)
    }
}

} // verus!
