//! Key material and body signatures: RSA keys with SHA-256 signatures, in base64.
//!
//! Keys are opaque to the library: it creates, reads and passes them on, and
//! only openssl looks inside.

use base64::Engine;
use vstd::prelude::*;

verus! {

#[verifier::external_type_specification]
#[verifier::external_body]
#[verifier::reject_recursive_types(T)]
pub struct ExPKey<T>(openssl::pkey::PKey<T>);

#[verifier::external_type_specification]
#[verifier::external_body]
pub struct ExPrivate(openssl::pkey::Private);

#[verifier::external_type_specification]
#[verifier::external_body]
pub struct ExPublic(openssl::pkey::Public);

#[verifier::external_type_specification]
#[verifier::external_body]
pub struct ExErrorStack(openssl::error::ErrorStack);

/// The longest PEM text, in characters, that the readers take: at up to four bytes a
/// character it stays within the `c_int` length that openssl's memory buffer asserts.
pub const MAX_PEM_CHARS: usize = 0x1FFF_FFFF;

/// The size of the keys that this library generates, in bits.
pub const KEY_BITS: u32 = 2048;

/// The character of the standard base64 alphabet for the sextet `v`.
pub open spec fn base64_char(v: int) -> char {
    if v < 26 {
        (('A' as int) + v) as char
    } else if v < 52 {
        (('a' as int) + v - 26) as char
    } else if v < 62 {
        (('0' as int) + v - 52) as char
    } else if v == 62 {
        '+'
    } else {
        '/'
    }
}

/// The base64 text (standard alphabet, padded with `=`) of these bytes: each group of
/// three bytes gives four characters, six bits each, most significant first.
pub open spec fn base64_text(bytes: Seq<u8>) -> Seq<char>
    decreases bytes.len(),
{
    if bytes.len() == 0 {
        Seq::empty()
    } else if bytes.len() == 1 {
        let b0 = bytes[0] as int;
        seq![base64_char(b0 / 4), base64_char((b0 % 4) * 16), '=', '=']
    } else if bytes.len() == 2 {
        let b0 = bytes[0] as int;
        let b1 = bytes[1] as int;
        seq![
            base64_char(b0 / 4),
            base64_char((b0 % 4) * 16 + b1 / 16),
            base64_char((b1 % 16) * 4),
            '=',
        ]
    } else {
        let b0 = bytes[0] as int;
        let b1 = bytes[1] as int;
        let b2 = bytes[2] as int;
        seq![
            base64_char(b0 / 4),
            base64_char((b0 % 4) * 16 + b1 / 16),
            base64_char((b1 % 16) * 4 + b2 / 64),
            base64_char(b2 % 64),
        ] + base64_text(bytes.subrange(3, bytes.len() as int))
    }
}

/// The bytes that this text decodes to as base64 (standard alphabet, canonical padding,
/// no stray trailing bits), if any.
pub uninterp spec fn base64_bytes(text: Seq<char>) -> Option<Seq<u8>>;

/// Whether openssl reads this text as a PEM-encoded RSA public key.
pub uninterp spec fn is_rsa_public_key_pem(pem: Seq<char>) -> bool;

/// Relies on base64's STANDARD engine `encode` (padded), and on its `decode` giving the
/// bytes back.
#[verifier::external_body]
pub(crate) fn base64_encode(bytes: &[u8]) -> (r: String)
    ensures
        r@ == base64_text(bytes@),
        base64_bytes(r@) == Some(bytes@),
{
    base64::engine::general_purpose::STANDARD.encode(bytes)
}

/// Relies on base64's STANDARD engine `decode`, which depends on the text alone and
/// fails on text that is not padded base64.
#[verifier::external_body]
pub(crate) fn base64_decode(text: &str) -> (r: Option<Vec<u8>>)
    ensures
        match r {
            Some(b) => base64_bytes(text@) == Some(b@),
            None => base64_bytes(text@) is None,
        },
{
    base64::engine::general_purpose::STANDARD.decode(text).ok()
}

/// Relies on openssl's Rsa::generate and PKey::from_rsa: a fresh RSA key pair of
/// `bits` bits, from the system's randomness.
#[verifier::external_body]
pub(crate) fn generate_rsa_key(bits: u32) -> (r: Result<
    openssl::pkey::PKey<openssl::pkey::Private>,
    openssl::error::ErrorStack,
>) {
    openssl::rsa::Rsa::generate(bits).and_then(openssl::pkey::PKey::from_rsa)
}

/// The PEM text of the public half of a private key, where openssl writes one.
pub uninterp spec fn public_pem_of(key: openssl::pkey::PKey<openssl::pkey::Private>) -> Option<
    Seq<char>,
>;

/// The PEM text of a public key, where openssl writes one.
pub uninterp spec fn server_pem_of(key: openssl::pkey::PKey<openssl::pkey::Public>) -> Option<
    Seq<char>,
>;

/// The PKCS#8 PEM text of a private key, where openssl writes one.
pub uninterp spec fn private_pem_of(key: openssl::pkey::PKey<openssl::pkey::Private>) -> Option<
    Seq<char>,
>;

/// Relies on openssl's PKey::public_key_to_pem on a private key: its public half, as
/// PEM text (an encoding of the key, with no randomness).
#[verifier::external_body]
pub(crate) fn public_key_to_pem(key: &openssl::pkey::PKey<openssl::pkey::Private>) -> (r: Result<
    String,
    openssl::error::ErrorStack,
>)
    ensures
        match r {
            Ok(p) => public_pem_of(*key) == Some(p@),
            Err(_) => public_pem_of(*key) is None,
        },
{
    key.public_key_to_pem().map(|pem| String::from_utf8_lossy(&pem).to_string())
}

/// Relies on openssl's PKey::public_key_to_pem on a public key: the key as PEM text
/// (an encoding of the key, with no randomness).
#[verifier::external_body]
pub(crate) fn server_key_to_pem(key: &openssl::pkey::PKey<openssl::pkey::Public>) -> (r: Result<
    String,
    openssl::error::ErrorStack,
>)
    ensures
        match r {
            Ok(p) => server_pem_of(*key) == Some(p@),
            Err(_) => server_pem_of(*key) is None,
        },
{
    key.public_key_to_pem().map(|pem| String::from_utf8_lossy(&pem).to_string())
}

/// Relies on openssl's Rsa::public_key_from_pem, then PKey::from_rsa, which succeed
/// or fail on the text alone; openssl's memory buffer panics on text over `c_int::MAX`
/// bytes, which the bound leaves out.
#[verifier::external_body]
pub(crate) fn public_key_from_pem(pem: &str) -> (r: Result<
    openssl::pkey::PKey<openssl::pkey::Public>,
    openssl::error::ErrorStack,
>)
    requires
        pem@.len() <= MAX_PEM_CHARS,
    ensures
        r is Ok <==> is_rsa_public_key_pem(pem@),
{
    openssl::rsa::Rsa::public_key_from_pem(pem.as_bytes()).and_then(openssl::pkey::PKey::from_rsa)
}

/// Whether openssl reads this text as a PEM-encoded private key, unencrypted or
/// encrypted under the empty passphrase.
pub uninterp spec fn is_private_key_pem(pem: Seq<char>) -> bool;

/// Relies on openssl's PKey::private_key_to_pem_pkcs8: the private key as PKCS#8 PEM
/// text (an unencrypted encoding of the key, with no randomness).
#[verifier::external_body]
pub(crate) fn private_key_to_pem(key: &openssl::pkey::PKey<openssl::pkey::Private>) -> (r: Result<
    String,
    openssl::error::ErrorStack,
>)
    ensures
        match r {
            Ok(p) => private_pem_of(*key) == Some(p@),
            Err(_) => private_pem_of(*key) is None,
        },
{
    key.private_key_to_pem_pkcs8().map(|pem| String::from_utf8_lossy(&pem).to_string())
}

/// Relies on openssl's PKey::private_key_from_pem_passphrase with the empty
/// passphrase, so that no prompt is made and the outcome depends on the text alone;
/// openssl's memory buffer panics on text over `c_int::MAX` bytes, which the bound
/// leaves out.
#[verifier::external_body]
pub(crate) fn private_key_from_pem(pem: &str) -> (r: Result<
    openssl::pkey::PKey<openssl::pkey::Private>,
    openssl::error::ErrorStack,
>)
    requires
        pem@.len() <= MAX_PEM_CHARS,
    ensures
        r is Ok <==> is_private_key_pem(pem@),
{
    openssl::pkey::PKey::private_key_from_pem_passphrase(pem.as_bytes(), b"")
}

/// Relies on openssl's Signer with SHA-256: the signature of `data` under `key`.
#[verifier::external_body]
pub(crate) fn sign_sha256(
    key: &openssl::pkey::PKey<openssl::pkey::Private>,
    data: &[u8],
) -> (r: Result<Vec<u8>, openssl::error::ErrorStack>) {
    let mut signer = openssl::sign::Signer::new(openssl::hash::MessageDigest::sha256(), key)?;
    signer.update(data)?;
    signer.sign_to_vec()
}

/// Whether openssl's SHA-256 verifier accepts `signature` as a signature of `data`
/// under the public `key`.
pub uninterp spec fn sha256_signature_valid(
    key: openssl::pkey::PKey<openssl::pkey::Public>,
    data: Seq<u8>,
    signature: Seq<u8>,
) -> bool;

/// Relies on openssl's Verifier with SHA-256: whether `signature` is a signature of
/// `data` under the public `key`, which involves no randomness and so depends on the
/// three alone.
#[verifier::external_body]
pub(crate) fn verify_sha256(
    key: &openssl::pkey::PKey<openssl::pkey::Public>,
    data: &[u8],
    signature: &[u8],
) -> (r: Result<bool, openssl::error::ErrorStack>)
    ensures
        (r matches Ok(true)) <==> sha256_signature_valid(*key, data@, signature@),
{
    let mut verifier = openssl::sign::Verifier::new(openssl::hash::MessageDigest::sha256(), key)?;
    verifier.update(data)?;
    verifier.verify(signature)
}

} // verus!
