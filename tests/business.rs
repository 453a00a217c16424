use bunqers::credential::{Advance, Credential};
use bunqers::deserialization::{decode_multiple, decode_single, DecodeError};
use bunqers::json::parse_json;
use bunqers::types::{
    BunqMeTabStatus, BunqMeTabWrapper, DeviceServerStatus, DeviceServerWrapper,
    MonetaryAccountBankStatus, MonetaryAccountBankWrapper,
};
use openssl::pkey::{PKey, Private, Public};

fn account(status: &str) -> String {
    format!(
        "{{\"MonetaryAccountBank\":{{\"currency\":\"EUR\",\"id\":3,\"balance\":{{\"value\":\"12.34\",\"currency\":\"EUR\"}},\"description\":\"Main\",\"status\":\"{status}\"}}}}"
    )
}

#[test]
fn accounts_list_with_unknown_status() {
    let body = format!("{{\"Response\":[{},{}],\"Pagination\":{{\"older_url\":null}}}}", account("ACTIVE"), account("FROZEN"));
    let j = parse_json(body.as_bytes()).unwrap();
    let m = decode_multiple::<MonetaryAccountBankWrapper>(&j).unwrap();
    assert_eq!(m.data.len(), 2);
    let first = &m.data[0].monetary_account_bank;
    assert_eq!(first.id, 3);
    assert_eq!(first.balance.value, "12.34");
    assert_eq!(first.status, MonetaryAccountBankStatus::Active);
    assert_eq!(m.data[1].monetary_account_bank.status, MonetaryAccountBankStatus::Unknown);
}

#[test]
fn account_without_balance_is_rejected() {
    let body = "{\"Response\":[{\"MonetaryAccountBank\":{\"currency\":\"EUR\",\"id\":3,\"description\":\"Main\",\"status\":\"ACTIVE\"}}]}";
    let j = parse_json(body.as_bytes()).unwrap();
    assert!(matches!(decode_single::<MonetaryAccountBankWrapper>(&j), Err(DecodeError::ShapeMismatch { .. })));
}

#[test]
fn payment_request_is_read() {
    let body = "{\"Response\":[{\"id\":8,\"created\":\"2022-01-01 00:00:00.0\",\"updated\":\"2022-01-01 00:00:00.0\",\"time_expiry\":\"2022-02-01 00:00:00.0\",\"monetary_account_id\":3,\"status\":\"WAITING_FOR_PAYMENT\",\"bunqme_tab_share_url\":\"https://pay.test/8\"}]}";
    let j = parse_json(body.as_bytes()).unwrap();
    let tab = decode_single::<BunqMeTabWrapper>(&j).unwrap().0 .0;
    assert_eq!(tab.id, 8);
    assert_eq!(tab.status, BunqMeTabStatus::WaitingForPayment);
    assert_eq!(tab.time_expiry.month, 2);
    assert_eq!(tab.bunqme_tab_share_url, "https://pay.test/8");
}

#[test]
fn payment_request_with_unknown_status_is_rejected() {
    let body = "{\"Response\":[{\"id\":8,\"created\":\"2022-01-01 00:00:00.0\",\"updated\":\"2022-01-01 00:00:00.0\",\"time_expiry\":\"2022-02-01 00:00:00.0\",\"monetary_account_id\":3,\"status\":\"LOST\",\"bunqme_tab_share_url\":\"u\"}]}";
    let j = parse_json(body.as_bytes()).unwrap();
    assert!(decode_single::<BunqMeTabWrapper>(&j).is_err());
}

#[test]
fn device_server_is_read() {
    let body = "{\"Response\":[{\"DeviceServer\":{\"id\":4,\"created\":\"2022-01-01 00:00:00.0\",\"updated\":\"2022-01-01 00:00:00.0\",\"description\":\"dev\",\"ip\":\"1.2.3.4\",\"status\":\"NEEDS_CONFIRMATION\"}}]}";
    let j = parse_json(body.as_bytes()).unwrap();
    let d = decode_single::<DeviceServerWrapper>(&j).unwrap().0.device_server;
    assert_eq!(d.id, 4);
    assert_eq!(d.ip, "1.2.3.4");
    assert_eq!(d.status, DeviceServerStatus::NeedsConfirmation);
}

fn keys() -> (PKey<Private>, PKey<Public>) {
    let private = PKey::from_rsa(openssl::rsa::Rsa::generate(2048).unwrap()).unwrap();
    let public = PKey::public_key_from_pem(&private.public_key_to_pem().unwrap()).unwrap();
    (private, public)
}

#[test]
fn credential_walks_the_line_and_back() {
    let (private, server) = keys();
    let c = Credential::Uninitialized.advance(Advance::Key(private)).ok().unwrap();
    let c = c
        .advance(Advance::Installation { installation_token: "it".to_string(), bunq_public_key: server })
        .ok()
        .unwrap();
    let c = c
        .advance(Advance::Registration { bunq_api_key: "secret".to_string(), registered_device_id: 7 })
        .ok()
        .unwrap();
    let c = c
        .advance(Advance::NewSession { session_token: "st".to_string(), owner_id: 9 })
        .ok()
        .unwrap();
    match &c {
        Credential::Session { session, .. } => {
            assert_eq!(session.session_token, "st");
            assert_eq!(session.owner_id, 9);
            assert_eq!(session.registered_device_id, 7);
            assert_eq!(session.installation_token, "it");
        }
        _ => panic!("expected a session"),
    }
    let back = c.downgrade();
    match &back {
        Credential::Registered { registered, .. } => {
            assert_eq!(registered.registered_device_id, 7);
            assert_eq!(registered.bunq_api_key, "secret");
            assert_eq!(registered.installation_token, "it");
        }
        _ => panic!("expected the registered stage"),
    }
    let again = back
        .advance(Advance::NewSession { session_token: "st".to_string(), owner_id: 9 })
        .ok()
        .unwrap();
    match again {
        Credential::Session { session, .. } => {
            assert_eq!(session.session_token, "st");
            assert_eq!(session.owner_id, 9);
        }
        _ => panic!("expected a session"),
    }
}

#[test]
fn credential_refuses_a_step_out_of_order() {
    let r = Credential::Uninitialized.advance(Advance::NewSession { session_token: "s".to_string(), owner_id: 1 });
    assert!(matches!(r, Err(Credential::Uninitialized)));
    assert!(matches!(Credential::Uninitialized.downgrade(), Credential::Uninitialized));
}
