use crate::cost::{default_cost, openssl_cost, openssl_cost_spec, scrypt_accepts, ScryptCost};
use crate::error::KeyError;
use crate::outside::{
    encrypt_der_default, encrypt_der_scrypt_aes256cbc, encrypted_key_pem, encrypted_key_pem_of,
    new_rsa_key, pkcs8_encrypted_der, plain_pkcs8_der, random_block,
};
use crate::pem::{encrypted_key_label, lf_only, pem_framed};
use pkcs8::pkcs5::scrypt;
use rsa::RsaPrivateKey;
use vstd::arithmetic::power2::lemma2_to64;
use vstd::prelude::*;

verus! {

/// The password that both encodings of the key are encrypted under.
pub const PASSWORD: &'static str = "password";

/// The size in bits of the modulus of the generated key.
pub const KEY_BITS: usize = 4096;

/// What encrypting the plain PKCS#8 DER `der` under `PASSWORD` with scrypt
/// settings `cost`, salt `salt` and AES-256-CBC IV `iv` gives: the PEM text,
/// or the step that failed.
pub open spec fn scrypt_pem_result(
    der: Seq<u8>,
    cost: ScryptCost,
    salt: Seq<u8>,
    iv: Seq<u8>,
) -> Result<Seq<char>, KeyError> {
    if !scrypt_accepts(cost) {
        Err(KeyError::InvalidScryptCost)
    } else {
        match pkcs8_encrypted_der(der, cost.log_n, cost.r, cost.p, salt, iv, PASSWORD@) {
            None => Err(KeyError::Encryption),
            Some(enc) => match encrypted_key_pem_of(enc) {
                None => Err(KeyError::Encoding),
                Some(pem) => Ok(pem),
            },
        }
    }
}

/// Some salt and IV of sixteen bytes each, and some PKCS#8 DER, give `res`
/// under the scrypt settings `cost`.
pub open spec fn drawn_scrypt_result(cost: ScryptCost, res: Result<Seq<char>, KeyError>) -> bool {
    exists|der: Seq<u8>, salt: Seq<u8>, iv: Seq<u8>|
        salt.len() == 16 && iv.len() == 16 && #[trigger] scrypt_pem_result(der, cost, salt, iv)
            == res
}

/// The view of a result that holds a `String`.
pub open spec fn pem_view(r: Result<String, KeyError>) -> Result<Seq<char>, KeyError> {
    match r {
        Ok(s) => Ok(s@),
        Err(e) => Err(e),
    }
}

/// Generates a fresh RSA key pair; rsa is asked for a modulus of `bits` bits.
pub fn generate_key(bits: usize) -> (r: Result<RsaPrivateKey, KeyError>)
    ensures
        r matches Err(e) ==> e == KeyError::KeyGeneration,
        64 <= bits ==> r is Ok,
{
    match new_rsa_key(bits) {
        Ok(key) => Ok(key),
        Err(_) => Err(KeyError::KeyGeneration),
    }
}

/// Encrypts the plain PKCS#8 DER `der` under `PASSWORD` with PBES2 made of
/// scrypt with the settings `cost` and salt `salt`, and AES-256-CBC with IV
/// `iv`, as a PEM block with line feeds. The result depends on the arguments
/// alone.
pub fn encrypt_der_with_scrypt(der: &[u8], cost: ScryptCost, salt: [u8; 16], iv: [u8; 16]) -> (r:
    Result<String, KeyError>)
    ensures
        pem_view(r) == scrypt_pem_result(der@, cost, salt@, iv@),
        r == Err::<String, KeyError>(KeyError::InvalidScryptCost) <==> !scrypt_accepts(cost),
        scrypt_accepts(cost) && (cost.r > 0xFFFF || cost.p > 0xFFFF) ==> r == Err::<
            String,
            KeyError,
        >(KeyError::Encryption),
        r matches Ok(pem) ==> pem_framed(pem@, encrypted_key_label()) && lf_only(pem@),
{
    match scrypt::Params::new(cost.log_n, cost.r, cost.p, cost.len) {
        Ok(_) => {},
        Err(_) => {
            return Err(KeyError::InvalidScryptCost);
        },
    }
    let encrypted = match encrypt_der_scrypt_aes256cbc(der, cost, &salt, &iv, PASSWORD) {
        Ok(d) => d,
        Err(_) => {
            return Err(KeyError::Encryption);
        },
    };
    match encrypted_key_pem(encrypted.as_slice()) {
        Ok(pem) => Ok(pem),
        Err(_) => Err(KeyError::Encoding),
    }
}

/// Encrypts `key` under `PASSWORD` with PBES2 made of scrypt with the cost
/// settings `cost` and AES-256-CBC, with a fresh random salt and IV of
/// sixteen bytes each (drawn in that order), as a PEM block with line feeds.
///
/// Fails with `InvalidScryptCost` exactly when scrypt refuses `cost`, and
/// with `Encoding` where the key has no PKCS#8 encoding.
pub fn encrypt_with_scrypt_params(key: &RsaPrivateKey, cost: ScryptCost) -> (r: Result<
    String,
    KeyError,
>)
    ensures
        r == Err::<String, KeyError>(KeyError::InvalidScryptCost) <==> !scrypt_accepts(cost),
        r matches Ok(pem) ==> pem_framed(pem@, encrypted_key_label()) && lf_only(pem@),
        r matches Ok(_) ==> drawn_scrypt_result(cost, pem_view(r)),
        r matches Err(e) ==> e == KeyError::Encoding || drawn_scrypt_result(cost, pem_view(r)),
{
    match scrypt::Params::new(cost.log_n, cost.r, cost.p, cost.len) {
        Ok(_) => {},
        Err(_) => {
            proof {
                let zeros = Seq::new(16, |i: int| 0u8);
                assert(scrypt_pem_result(Seq::empty(), cost, zeros, zeros) == Err::<
                    Seq<char>,
                    KeyError,
                >(KeyError::InvalidScryptCost));
            }
            return Err(KeyError::InvalidScryptCost);
        },
    }
    let der = match plain_pkcs8_der(key) {
        Ok(d) => d,
        Err(_) => {
            return Err(KeyError::Encoding);
        },
    };
    let salt = random_block();
    let iv = random_block();
    let r = encrypt_der_with_scrypt(der.as_slice(), cost, salt, iv);
    assert(scrypt_pem_result(der@, cost, salt@, iv@) == pem_view(r));
    r
}

/// Encrypts `key` under `PASSWORD` with the PBES2 settings of `openssl pkcs8`:
/// scrypt with `openssl_cost()` and AES-256-CBC, with a fresh random salt and
/// IV of sixteen bytes each, as a PEM block with line feeds. The cost
/// settings never make it fail.
pub fn encrypt_with_openssl_params(key: &RsaPrivateKey) -> (r: Result<String, KeyError>)
    ensures
        r matches Ok(pem) ==> pem_framed(pem@, encrypted_key_label()) && lf_only(pem@),
        r matches Ok(_) ==> drawn_scrypt_result(openssl_cost_spec(), pem_view(r)),
        r matches Err(e) ==> e != KeyError::InvalidScryptCost && (e == KeyError::Encoding
            || drawn_scrypt_result(openssl_cost_spec(), pem_view(r))),
{
    encrypt_with_scrypt_params(key, openssl_cost())
}

/// Encrypts `key` under `PASSWORD` with the PBES2 settings that pkcs8 picks
/// by default (scrypt with `default_cost()` and AES-256-CBC, with a fresh
/// random salt and IV of sixteen bytes each), as a PEM block with line feeds.
pub fn encrypt_with_default_params(key: &RsaPrivateKey) -> (r: Result<String, KeyError>)
    ensures
        r matches Ok(pem) ==> pem_framed(pem@, encrypted_key_label()) && lf_only(pem@),
        r matches Ok(_) ==> drawn_scrypt_result(default_cost(), pem_view(r)),
        r matches Err(e) ==> e != KeyError::InvalidScryptCost && (e == KeyError::Encoding
            || drawn_scrypt_result(default_cost(), pem_view(r))),
{
    proof {
        lemma2_to64();
    }
    assert(scrypt_accepts(default_cost()));
    let der = match plain_pkcs8_der(key) {
        Ok(d) => d,
        Err(_) => {
            return Err(KeyError::Encoding);
        },
    };
    let encrypted = match encrypt_der_default(der.as_slice(), PASSWORD) {
        Ok(d) => d,
        Err(_) => {
            proof {
                let (salt, iv) = choose|salt: Seq<u8>, iv: Seq<u8>|
                    salt.len() == 16 && iv.len() == 16 && #[trigger] pkcs8_encrypted_der(
                        der@,
                        17,
                        8,
                        1,
                        salt,
                        iv,
                        PASSWORD@,
                    ) is None;
                assert(scrypt_pem_result(der@, default_cost(), salt, iv) == Err::<
                    Seq<char>,
                    KeyError,
                >(KeyError::Encryption));
            }
            return Err(KeyError::Encryption);
        },
    };
    let ghost (salt, iv) = choose|salt: Seq<u8>, iv: Seq<u8>|
        salt.len() == 16 && iv.len() == 16 && #[trigger] pkcs8_encrypted_der(
            der@,
            17,
            8,
            1,
            salt,
            iv,
            PASSWORD@,
        ) == Some(encrypted@);
    let r = match encrypted_key_pem(encrypted.as_slice()) {
        Ok(pem) => Ok(pem),
        Err(_) => Err(KeyError::Encoding),
    };
    assert(scrypt_pem_result(der@, default_cost(), salt, iv) == pem_view(r));
    r
}

} // verus!
