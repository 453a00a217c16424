use base64::Engine;
use bunqers::client::{decimal, Client};
use bunqers::client_builder::{BuildErrorReason, ClientBuilder, Installed, Registered};
use bunqers::json::Json;
use bunqers::messenger::{ApiResponse, Delivery, HttpMethod, HttpResponse, MessageError, Messenger};
use bunqers::types::{CreateDeviceServer, CreateSession};
use openssl::pkey::{PKey, Private};

const BASE: &str = "https://api.test/v1";

fn private_key() -> PKey<Private> {
    PKey::from_rsa(openssl::rsa::Rsa::generate(2048).unwrap()).unwrap()
}

fn signed(server: &PKey<Private>, status: u16, body: &str) -> HttpResponse {
    let mut signer = openssl::sign::Signer::new(openssl::hash::MessageDigest::sha256(), server).unwrap();
    signer.update(body.as_bytes()).unwrap();
    let sig = base64::engine::general_purpose::STANDARD.encode(signer.sign_to_vec().unwrap());
    HttpResponse { status, server_signature: Some(sig), body: body.as_bytes().to_vec() }
}

fn deliver(m: &Messenger, reply: HttpResponse) -> Result<ApiResponse<Json>, MessageError> {
    match m.send(reply)? {
        Delivery::Delivered(a) => Ok(a),
        Delivery::RateLimited => panic!("unexpected rate limit"),
    }
}

fn installation_body(server: &PKey<Private>) -> String {
    let pem = String::from_utf8(server.public_key_to_pem().unwrap()).unwrap();
    format!(
        "{{\"Response\":[{{\"Id\":{{\"id\":1}}}},{{\"Token\":{{\"id\":2,\"created\":\"2020-01-01 10:00:00.000000\",\"updated\":\"2020-01-01 10:00:00.000000\",\"token\":\"install-token\"}}}},{{\"ServerPublicKey\":{{\"server_public_key\":{}}}}}]}}",
        serde_json::to_string(&pem).unwrap()
    )
}

const DEVICE_BODY: &str = "{\"Response\":[{\"Id\":{\"id\":77}}]}";

fn user_person(id: u32) -> String {
    format!(
        "{{\"id\":{id},\"created\":\"2020-01-01 10:00:00.000000\",\"updated\":\"2020-01-01 10:00:00.000000\",\"public_uuid\":\"u\",\"session_timeout\":3600,\"legal_name\":\"L\",\"public_nick_name\":\"N\",\"display_name\":\"D\",\"first_name\":\"F\",\"last_name\":\"La\",\"middle_name\":\"\",\"date_of_birth\":\"1990-01-01\",\"nationality\":\"NL\"}}"
    )
}

fn session_body() -> String {
    format!(
        "{{\"Response\":[{{\"Id\":{{\"id\":5}}}},{{\"Token\":{{\"id\":6,\"created\":\"2020-01-01 10:00:00.000000\",\"updated\":\"2020-01-01 10:00:00.000000\",\"token\":\"session-token\"}}}},{{\"UserPerson\":{}}}]}}",
        user_person(900)
    )
}

fn installed(server: &PKey<Private>) -> ClientBuilder<Installed> {
    let b = ClientBuilder::new_with_key(BASE.to_string(), "app".to_string(), private_key());
    let req = b.installation_request().unwrap();
    assert_eq!(req.url, format!("{BASE}/installation"));
    assert_eq!(req.method, HttpMethod::Post);
    assert!(req.body.as_ref().unwrap().starts_with("{\"client_public_key\":\"-----BEGIN PUBLIC KEY-----"));
    let reply = HttpResponse { status: 200, server_signature: None, body: installation_body(server).into_bytes() };
    let outcome = b.messenger.send_unverified(reply);
    b.install_device(outcome).ok().unwrap()
}

fn session(server: &PKey<Private>) -> Client {
    let b = installed(server);
    let outcome = deliver(&b.messenger, signed(server, 200, DEVICE_BODY));
    let b = b.register_device("secret-X".to_string(), outcome).ok().unwrap();
    let outcome = deliver(&b.messenger, signed(server, 200, &session_body()));
    let b = b.create_session(outcome).ok().unwrap();
    b.build()
}

#[test]
fn bootstrap_from_nothing_to_session() {
    let server = private_key();
    let b = installed(&server);
    assert_eq!(b.context.installation_token, "install-token");
    assert_eq!(b.messenger.authentication_token().unwrap(), "install-token");

    let req = b.registration_request("secret-X", "dev").unwrap();
    assert_eq!(req.url, format!("{BASE}/device-server"));
    assert_eq!(req.body.as_deref(), Some("{\"secret\":\"secret-X\",\"description\":\"dev\",\"permitted_ips\":[]}"));
    let auth = req.headers.iter().find(|(n, _)| n == "X-Client-Authentication").unwrap();
    assert_eq!(auth.1, "install-token");
    let outcome = deliver(&b.messenger, signed(&server, 200, DEVICE_BODY));
    let b = b.register_device("secret-X".to_string(), outcome).ok().unwrap();
    assert_eq!(b.context.registered_device_id, 77);
    assert_eq!(b.context.bunq_api_key, "secret-X");

    let req = b.session_request().unwrap();
    assert_eq!(req.url, format!("{BASE}/session-server"));
    assert_eq!(req.body.as_deref(), Some("{\"secret\":\"secret-X\"}"));
    let outcome = deliver(&b.messenger, signed(&server, 200, &session_body()));
    let b = b.create_session(outcome).ok().unwrap();
    assert_eq!(b.context.session_token, "session-token");
    assert_eq!(b.context.owner_id, 900);
    assert_eq!(b.context.installation_token, "install-token");
    assert_eq!(b.context.registered_device_id, 77);
    assert_eq!(b.messenger.authentication_token().unwrap(), "session-token");
}

#[test]
fn failed_session_check_falls_back_to_registered() {
    let server = private_key();
    let client = session(&server);
    let req = client.get_user().unwrap();
    assert_eq!(req.url, format!("{BASE}/user"));
    let reply = signed(&server, 401, "{\"Error\":[{\"error_description\":\"Insufficient authorisation.\",\"error_description_translated\":\"Onvoldoende autorisatie.\"}]}");
    let outcome = deliver(&client.messenger, reply);
    match client.ensure_session(outcome) {
        Err(registered) => {
            assert_eq!(registered.context.registered_device_id, 77);
            assert_eq!(registered.context.bunq_api_key, "secret-X");
            assert_eq!(registered.context.installation_token, "install-token");
            assert_eq!(registered.messenger.authentication_token().unwrap(), "install-token");
            let req = registered.session_request().unwrap();
            assert_eq!(req.body.as_deref(), Some("{\"secret\":\"secret-X\"}"));
        }
        Ok(_) => panic!("the session must be dropped"),
    }
}

#[test]
fn confirmed_session_check_keeps_session() {
    let server = private_key();
    let client = session(&server);
    let reply = signed(&server, 200, &format!("{{\"Response\":[{{\"UserPerson\":{}}}]}}", user_person(900)));
    let outcome = deliver(&client.messenger, reply);
    match client.ensure_session(outcome) {
        Ok(c) => {
            assert_eq!(c.context.owner_id, 900);
            assert_eq!(c.context.session_token, "session-token");
            assert_eq!(c.messenger.authentication_token().unwrap(), "session-token");
        }
        Err(_) => panic!("the session is valid"),
    }
}

#[test]
fn transport_failure_keeps_stage() {
    let server = private_key();
    let b = installed(&server);
    match b.register_device("s".to_string(), Err(MessageError::RequestSendError)) {
        Err(e) => {
            assert!(matches!(e.reason, BuildErrorReason::BunqResponseError));
            assert_eq!(e.context.installation_token, "install-token");
        }
        Ok(_) => panic!("no reply came"),
    }
}

#[test]
fn installation_with_bad_server_key_is_key_error() {
    let b = ClientBuilder::new_with_key(BASE.to_string(), "app".to_string(), private_key());
    let body = "{\"Response\":[{\"Id\":{\"id\":1}},{\"Token\":{\"id\":2,\"created\":\"2020-01-01 10:00:00.000000\",\"updated\":\"2020-01-01 10:00:00.000000\",\"token\":\"t\"}},{\"ServerPublicKey\":{\"server_public_key\":\"not a key\"}}]}";
    let outcome = b.messenger.send_unverified(HttpResponse { status: 200, server_signature: None, body: body.as_bytes().to_vec() });
    match b.install_device(outcome) {
        Err(e) => assert!(matches!(e.reason, BuildErrorReason::KeyDeserializationError(_))),
        Ok(_) => panic!("the key is not PEM"),
    }
}

#[test]
fn replaying_registration_gives_same_stage() {
    let server = private_key();
    let b = installed(&server);
    let client_key = b.private_key.clone();
    let outcome = deliver(&b.messenger, signed(&server, 200, DEVICE_BODY));
    let b = b.register_device("secret-X".to_string(), outcome).ok().unwrap();
    let first_id = b.context.registered_device_id;
    let back: Installed = Installed::from(b.context);
    let again = ClientBuilder::from_installation(back, BASE.to_string(), "app".to_string(), client_key);
    let outcome = deliver(&again.messenger, signed(&server, 200, DEVICE_BODY));
    let again = again.register_device("secret-X".to_string(), outcome).ok().unwrap();
    assert_eq!(again.context.registered_device_id, first_id);
    assert_eq!(again.context.bunq_api_key, "secret-X");
    assert_eq!(again.context.installation_token, "install-token");
}

#[test]
fn replaying_session_gives_same_stage() {
    let server = private_key();
    let client = session(&server);
    let key = client.private_key.clone();
    let back = Registered::from(bunqers::client_builder::UncheckedSession::from(client.context));
    let b = ClientBuilder::from_registration(back, BASE.to_string(), "app".to_string(), key);
    let outcome = deliver(&b.messenger, signed(&server, 200, &session_body()));
    let b = b.create_session(outcome).ok().unwrap();
    assert_eq!(b.context.session_token, "session-token");
    assert_eq!(b.context.owner_id, 900);
    assert_eq!(b.context.registered_device_id, 77);
}

#[test]
fn new_without_key_starts_unauthenticated() {
    let b = ClientBuilder::new_without_key(BASE.to_string(), "app".to_string()).ok().unwrap();
    assert!(b.messenger.authentication_token().is_none());
    assert_eq!(b.api_base_url, BASE);
}

#[test]
fn endpoint_paths() {
    let server = private_key();
    let client = session(&server);
    assert_eq!(client.get_monetary_accounts().unwrap().url, format!("{BASE}/user/900/monetary-account-bank"));
    assert_eq!(client.get_monetary_account(12).unwrap().url, format!("{BASE}/user/900/monetary-account-bank/12"));
    assert_eq!(client.get_payment_request(3, 45).unwrap().url, format!("{BASE}/user/900/monetary-account/3/bunqme-tab/45"));
    let close = client.close_payment_request(3, 45).unwrap();
    assert_eq!(close.method, HttpMethod::Put);
    assert_eq!(close.body.as_deref(), Some("{\"status\":\"CANCELLED\"}"));
    let create = client.create_payment_request(3, 1250, 2, "Lunch \"team\"".to_string(), "https://x.test/r".to_string()).unwrap();
    assert_eq!(create.url, format!("{BASE}/user/900/monetary-account/3/bunqme-tab"));
    assert_eq!(
        create.body.as_deref(),
        Some("{\"bunqme_tab_entry\":{\"amount_inquired\":{\"value\":\"12.50\",\"currency\":\"EUR\"},\"description\":\"Lunch \\\"team\\\"\",\"redirect_url\":\"https://x.test/r\"}}")
    );
}

#[test]
fn decimal_rendering() {
    assert_eq!(decimal(0), "0");
    assert_eq!(decimal(7), "7");
    assert_eq!(decimal(1234), "1234");
    assert_eq!(decimal(u32::MAX), "4294967295");
}

#[test]
fn request_bodies_escape_strings() {
    let s = CreateSession { bunq_api_key: "a\"b".to_string() };
    assert_eq!(s.to_json(), "{\"secret\":\"a\\\"b\"}");
    let d = CreateDeviceServer {
        bunq_api_key: "k".to_string(),
        description: "d".to_string(),
        permitted_ips: vec!["1.2.3.4".to_string(), "5.6.7.8".to_string()],
    };
    assert_eq!(d.to_json(), "{\"secret\":\"k\",\"description\":\"d\",\"permitted_ips\":[\"1.2.3.4\",\"5.6.7.8\"]}");
}

#[test]
fn control_characters_are_escaped() {
    let s = CreateSession { bunq_api_key: "a\u{1}\n\\".to_string() };
    assert_eq!(s.to_json(), "{\"secret\":\"a\\u0001\\n\\\\\"}");
}

#[test]
fn amounts_are_written_as_decimal_strings() {
    let server = private_key();
    let client = session(&server);
    let body = |m: i128, s: u32| {
        let req = client.create_payment_request(1, m, s, "d".to_string(), "u".to_string()).unwrap();
        let body = req.body.unwrap();
        let start = body.find("\"value\":").unwrap() + 8;
        let end = body.find(",\"currency\"").unwrap();
        body[start..end].to_string()
    };
    assert_eq!(body(5, 3), "\"0.005\"");
    assert_eq!(body(-5, 0), "\"-5\"");
    assert_eq!(body(0, 2), "\"0.00\"");
    assert_eq!(body(79228162514264337593543950335, 0), "\"79228162514264337593543950335\"");
}

#[test]
fn registration_carries_installation_token_and_signature() {
    let server = private_key();
    let b = installed(&server);
    let req = b.registration_request("k", "d").unwrap();
    let names: Vec<&str> = req.headers.iter().map(|(n, _)| n.as_str()).collect();
    assert_eq!(names, vec!["User-Agent", "Cache-Control", "X-Client-Signature", "X-Client-Authentication"]);
    assert_eq!(req.headers[3].1, "install-token");
}

#[test]
fn installation_body_carries_our_public_key() {
    let key = private_key();
    let pem = String::from_utf8(key.public_key_to_pem().unwrap()).unwrap();
    let b = ClientBuilder::new_with_key(BASE.to_string(), "app".to_string(), key);
    let req = b.installation_request().unwrap();
    let expected = format!("{{\"client_public_key\":{}}}", serde_json::to_string(&pem).unwrap());
    assert_eq!(req.body.as_deref(), Some(expected.as_str()));
    let names: Vec<&str> = req.headers.iter().map(|(n, _)| n.as_str()).collect();
    assert_eq!(names, vec!["User-Agent", "Cache-Control", "X-Client-Signature"]);
}
