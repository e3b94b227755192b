use crate::cost::{scrypt_accepts, ScryptCost};
use crate::pem::{encrypted_key_label, lf_only, pem_framed};
use pkcs8::der::pem::PemLabel;
use pkcs8::pkcs5::{pbes2, scrypt};
use pkcs8::{EncodePrivateKey, EncryptedPrivateKeyInfo, LineEnding, PrivateKeyInfo};
use rsa::RsaPrivateKey;
use vstd::prelude::*;

verus! {

#[verifier::external_type_specification]
#[verifier::external_body]
pub struct ExRsaPrivateKey(rsa::RsaPrivateKey);

#[verifier::external_type_specification]
#[verifier::external_body]
pub struct ExRsaError(rsa::Error);

#[verifier::external_type_specification]
#[verifier::external_body]
pub struct ExScryptParams(scrypt::Params);

#[verifier::external_type_specification]
#[verifier::external_body]
pub struct ExInvalidParams(scrypt::errors::InvalidParams);

#[verifier::external_type_specification]
#[verifier::external_body]
pub struct ExPkcs8Error(pkcs8::Error);

#[verifier::external_type_specification]
#[verifier::external_body]
pub struct ExPemError(pkcs8::der::pem::Error);

/// The DER of the PKCS#8 `EncryptedPrivateKeyInfo` that pkcs8 makes of the
/// plain PKCS#8 DER `der` under PBES2 with scrypt (`2^log_n`, `r`, `p`) and
/// `salt`, AES-256-CBC with `iv`, and `password`; `None` where it fails.
pub uninterp spec fn pkcs8_encrypted_der(
    der: Seq<u8>,
    log_n: u8,
    r: u32,
    p: u32,
    salt: Seq<u8>,
    iv: Seq<u8>,
    password: Seq<char>,
) -> Option<Seq<u8>>;

/// The PEM text, labelled `ENCRYPTED PRIVATE KEY` and with line feeds, that
/// pem-rfc7468 makes of `der`; `None` where it fails.
pub uninterp spec fn encrypted_key_pem_of(der: Seq<u8>) -> Option<Seq<char>>;

/// Relies on scrypt::Params::new: it accepts exactly the settings that
/// `scrypt_accepts` describes (its checks, on a `usize` of 32 bits or more).
pub assume_specification[ scrypt::Params::new ](log_n: u8, r: u32, p: u32, len: usize) -> (res:
    Result<scrypt::Params, scrypt::errors::InvalidParams>)
    ensures
        res is Ok <==> scrypt_accepts(ScryptCost { log_n, r, p, len }),
;

/// Relies on rsa::RsaPrivateKey::new with the thread-local generator of rand:
/// a fresh key pair with a modulus of `bits` bits. From 64 bits on it draws
/// primes until the key is valid, so it does not fail.
#[verifier::external_body]
pub(crate) fn new_rsa_key(bits: usize) -> (r: Result<RsaPrivateKey, rsa::Error>)
    ensures
        64 <= bits ==> r is Ok,
{
    RsaPrivateKey::new(&mut rand::thread_rng(), bits)
}

/// Relies on rand::random: sixteen bytes from the thread-local generator.
#[verifier::external_body]
pub(crate) fn random_block() -> (r: [u8; 16]) {
    rand::random()
}

/// Relies on EncodePrivateKey::to_pkcs8_der of rsa: the key as plain PKCS#8 DER.
#[verifier::external_body]
pub(crate) fn plain_pkcs8_der(key: &RsaPrivateKey) -> (r: Result<Vec<u8>, pkcs8::Error>) {
    key.to_pkcs8_der().map(|d| d.as_bytes().to_vec())
}

/// Relies on scrypt::Params::new, pbes2::Parameters::scrypt_aes256cbc,
/// `TryFrom<&[u8]>` of PrivateKeyInfo and PrivateKeyInfo::encrypt_with_params:
/// the result depends on the arguments alone (`len` is not recorded: the key
/// length comes from AES-256), and pkcs5 refuses an `r` or `p` over 16 bits.
#[verifier::external_body]
pub(crate) fn encrypt_der_scrypt_aes256cbc(
    der: &[u8],
    cost: ScryptCost,
    salt: &[u8; 16],
    iv: &[u8; 16],
    password: &str,
) -> (res: Result<Vec<u8>, pkcs8::Error>)
    requires
        scrypt_accepts(cost),
    ensures
        res is Ok <==> pkcs8_encrypted_der(der@, cost.log_n, cost.r, cost.p, salt@, iv@, password@) is Some,
        res matches Ok(d) ==> pkcs8_encrypted_der(der@, cost.log_n, cost.r, cost.p, salt@, iv@, password@)
            == Some(d@),
        cost.r > 0xFFFF || cost.p > 0xFFFF ==> res is Err,
{
    let params = scrypt::Params::new(cost.log_n, cost.r, cost.p, cost.len).unwrap();
    let pbes2_params = pbes2::Parameters::scrypt_aes256cbc(params, salt, iv)?;
    let doc = PrivateKeyInfo::try_from(der)?.encrypt_with_params(pbes2_params, password)?;
    Ok(doc.as_bytes().to_vec())
}

/// Relies on `TryFrom<&[u8]>` of PrivateKeyInfo and PrivateKeyInfo::encrypt
/// with the thread-local generator of rand: it draws a salt and an IV of
/// sixteen bytes each and encrypts as `encrypt_with_params` does with
/// `scrypt::Params::default()` (`log_n` 17, `r` 8, `p` 1) and AES-256-CBC.
#[verifier::external_body]
pub(crate) fn encrypt_der_default(der: &[u8], password: &str) -> (res: Result<
    Vec<u8>,
    pkcs8::Error,
>)
    ensures
        res matches Ok(d) ==> exists|salt: Seq<u8>, iv: Seq<u8>|
            salt.len() == 16 && iv.len() == 16 && #[trigger] pkcs8_encrypted_der(
                der@,
                17,
                8,
                1,
                salt,
                iv,
                password@,
            ) == Some(d@),
        res is Err ==> exists|salt: Seq<u8>, iv: Seq<u8>|
            salt.len() == 16 && iv.len() == 16 && #[trigger] pkcs8_encrypted_der(
                der@,
                17,
                8,
                1,
                salt,
                iv,
                password@,
            ) is None,
{
    PrivateKeyInfo::try_from(der)?.encrypt(rand::thread_rng(), password).map(
        |d| d.as_bytes().to_vec(),
    )
}

/// Relies on pem-rfc7468's encode_string with the label of
/// EncryptedPrivateKeyInfo (`ENCRYPTED PRIVATE KEY`) and line feeds: it
/// writes the begin line first and the end line last, and its base64 lines
/// and line endings hold no carriage return.
#[verifier::external_body]
pub(crate) fn encrypted_key_pem(der: &[u8]) -> (r: Result<String, pkcs8::der::pem::Error>)
    ensures
        r is Ok <==> encrypted_key_pem_of(der@) is Some,
        r matches Ok(pem) ==> encrypted_key_pem_of(der@) == Some(pem@),
        r matches Ok(pem) ==> pem_framed(pem@, encrypted_key_label()) && lf_only(pem@),
{
    pkcs8::der::pem::encode_string(EncryptedPrivateKeyInfo::PEM_LABEL, LineEnding::LF, der)
}

} // verus!
