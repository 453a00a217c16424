use base64::Engine;
use bunqers::messenger::{Delivery, HttpMethod, HttpResponse, MessageError, Messenger};
use bunqers::types::ApiResponseBody;
use openssl::pkey::{PKey, Private, Public};

fn key_pair() -> (PKey<Private>, PKey<Public>) {
    let private = PKey::from_rsa(openssl::rsa::Rsa::generate(2048).unwrap()).unwrap();
    let public = PKey::public_key_from_pem(&private.public_key_to_pem().unwrap()).unwrap();
    (private, public)
}

fn sign(key: &PKey<Private>, data: &[u8]) -> String {
    let mut signer = openssl::sign::Signer::new(openssl::hash::MessageDigest::sha256(), key).unwrap();
    signer.update(data).unwrap();
    base64::engine::general_purpose::STANDARD.encode(signer.sign_to_vec().unwrap())
}

fn header<'a>(headers: &'a [(String, String)], name: &str) -> Option<&'a str> {
    headers.iter().find(|(n, _)| n == name).map(|(_, v)| v.as_str())
}

/// A messenger whose server key is the public half of its own key.
fn loopback() -> (Messenger, PKey<Private>) {
    let (private, public) = key_pair();
    let m = Messenger::new("https://api.test/v1".to_string(), "app".to_string(), private.clone(), Some(public), None);
    (m, private)
}

#[test]
fn signature_of_body_verifies_and_bit_flips_do_not() {
    let (m, _) = loopback();
    let body = "{\"Response\":[]}".to_string();
    let req = m.request(HttpMethod::Post, "x", Some(body.clone())).unwrap();
    let sig = header(&req.headers, "X-Client-Signature").unwrap().to_string();

    let ok = m.send(HttpResponse { status: 200, server_signature: Some(sig.clone()), body: body.clone().into_bytes() });
    assert!(matches!(ok, Ok(Delivery::Delivered(_))));

    let mut flipped_body = body.clone().into_bytes();
    flipped_body[3] ^= 1;
    let bad = m.send(HttpResponse { status: 200, server_signature: Some(sig.clone()), body: flipped_body });
    assert!(matches!(bad, Err(MessageError::InvalidServerSignature { .. })));

    let mut raw = base64::engine::general_purpose::STANDARD.decode(&sig).unwrap();
    raw[10] ^= 0x80;
    let flipped_sig = base64::engine::general_purpose::STANDARD.encode(raw);
    let bad = m.send(HttpResponse { status: 200, server_signature: Some(flipped_sig), body: body.into_bytes() });
    assert!(matches!(bad, Err(MessageError::InvalidServerSignature { .. })));
}

#[test]
fn signature_that_is_not_base64_is_refused() {
    let (m, _) = loopback();
    let r = m.send(HttpResponse { status: 200, server_signature: Some("%%%".to_string()), body: b"{}".to_vec() });
    assert!(matches!(r, Err(MessageError::InvalidServerSignature { .. })));
}

#[test]
fn request_headers_in_order() {
    let (private, _) = key_pair();
    let m = Messenger::new("https://api.test/v1".to_string(), "my-app".to_string(), private, None, Some("tok".to_string()));
    let req = m.request(HttpMethod::Get, "user", None).unwrap();
    assert_eq!(req.url, "https://api.test/v1/user");
    assert_eq!(req.method, HttpMethod::Get);
    assert!(req.body.is_none());
    let names: Vec<&str> = req.headers.iter().map(|(n, _)| n.as_str()).collect();
    assert_eq!(names, vec!["User-Agent", "Cache-Control", "X-Client-Authentication"]);
    assert_eq!(header(&req.headers, "User-Agent"), Some("my-app"));
    assert_eq!(header(&req.headers, "Cache-Control"), Some("no-cache"));
    assert_eq!(header(&req.headers, "X-Client-Authentication"), Some("tok"));
}

#[test]
fn request_with_body_carries_signature_header() {
    let (private, public) = key_pair();
    let m = Messenger::new("https://api.test".to_string(), "a".to_string(), private, None, None);
    let req = m.request(HttpMethod::Post, "installation", Some("{}".to_string())).unwrap();
    let names: Vec<&str> = req.headers.iter().map(|(n, _)| n.as_str()).collect();
    assert_eq!(names, vec!["User-Agent", "Cache-Control", "X-Client-Signature"]);
    let sig = base64::engine::general_purpose::STANDARD.decode(header(&req.headers, "X-Client-Signature").unwrap()).unwrap();
    let mut verifier = openssl::sign::Verifier::new(openssl::hash::MessageDigest::sha256(), &public).unwrap();
    verifier.update(b"{}").unwrap();
    assert!(verifier.verify(&sig).unwrap());
}

#[test]
fn rate_limited_three_times_then_delivered() {
    let (m, server) = loopback();
    let body = b"{\"Response\":[{\"Id\":{\"id\":9}}]}".to_vec();
    let sig = sign(&server, &body);
    let mut script = vec![
        HttpResponse { status: 429, server_signature: None, body: Vec::new() },
        HttpResponse { status: 429, server_signature: None, body: Vec::new() },
        HttpResponse { status: 429, server_signature: None, body: Vec::new() },
        HttpResponse { status: 200, server_signature: Some(sig), body },
    ]
    .into_iter();
    let mut issued = 0;
    let outcome = loop {
        let reply = script.next().expect("no more replies scripted");
        issued += 1;
        match m.send(reply) {
            Ok(Delivery::RateLimited) => continue,
            other => break other,
        }
    };
    assert_eq!(issued, 4);
    match outcome {
        Ok(Delivery::Delivered(a)) => {
            assert_eq!(a.status_code(), 200);
            match a.into_body() {
                ApiResponseBody::Payload(p) => assert!(p.get("Response").is_some()),
                ApiResponseBody::Errors(_) => panic!("expected a payload"),
            }
        }
        _ => panic!("expected a delivered reply"),
    }
}

#[test]
fn missing_signature_header_fails_before_decoding() {
    let (m, _) = loopback();
    // not JSON: had the body been decoded, the error would be a parse error
    let r = m.send(HttpResponse { status: 200, server_signature: None, body: b"<html>".to_vec() });
    assert!(matches!(r, Err(MessageError::InvalidServerSignature { .. })));
}

#[test]
fn unverified_reply_is_decoded_without_signature() {
    let (m, _) = loopback();
    let r = m.send_unverified(HttpResponse { status: 200, server_signature: None, body: b"{\"Response\":[]}".to_vec() });
    assert!(r.is_ok());
    let r = m.send_unverified(HttpResponse { status: 200, server_signature: None, body: b"nope".to_vec() });
    assert!(matches!(r, Err(MessageError::BodyParseError(_))));
}

#[test]
fn error_envelope_keeps_status() {
    let (m, server) = loopback();
    let body = b"{\"Error\":[{\"error_description\":\"x\",\"error_description_translated\":\"y\"}]}".to_vec();
    let sig = sign(&server, &body);
    match m.send(HttpResponse { status: 400, server_signature: Some(sig), body }) {
        Ok(Delivery::Delivered(a)) => {
            let e = a.into_result().err().unwrap();
            assert_eq!(e.status_code, 400);
            assert_eq!(e.reasons[0].description, "x");
        }
        _ => panic!("expected a delivered reply"),
    }
}
