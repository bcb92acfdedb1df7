//! The cryptographic primitives, behind trusted contracts.
//!
//! SHA-256, HMAC-SHA256 and AES-256-CBC come from outside crates; their
//! outputs are named by uninterpreted spec functions, since writing the
//! algorithms out would state nothing a reader could check.  Modular
//! exponentiation, by contrast, has a one-line meaning, so its wrapper
//! carries the full arithmetic specification from `bignum`.  Random bytes
//! promise nothing but their length.

use vstd::prelude::*;
use crate::bignum::bytes_be_to_nat;
use crate::bignum::mod_pow_bytes;

verus! {

/// The SHA-256 digest of a byte string.
pub uninterp spec fn sha256_of(data: Seq<u8>) -> Seq<u8>;

/// The HMAC-SHA256 tag over a byte string under a key.
pub uninterp spec fn hmac_sha256_of(key: Seq<u8>, data: Seq<u8>) -> Seq<u8>;

/// The AES-256-CBC encryption of a byte string under a 32-byte key and a
/// 16-byte initialization vector, with PKCS#7 padding.
pub uninterp spec fn aes256_cbc_encrypt_of(key: Seq<u8>, iv: Seq<u8>, plain: Seq<u8>) -> Seq<u8>;

/// Relies on sha2's `Sha256` through the `Digest` trait: a 32-byte digest
/// that depends on the input bytes alone.
#[verifier::external_body]
pub(crate) fn sha256(data: &Vec<u8>) -> (r: Vec<u8>)
    ensures
        r@ == sha256_of(data@),
        r@.len() == 32,
{
    <sha2::Sha256 as sha2::Digest>::digest(data.as_slice()).to_vec()
}

/// Relies on hmac's `Hmac<Sha256>`: a 32-byte tag that depends on the key
/// and input bytes alone.  Its `new_from_slice` accepts keys of any length.
#[verifier::external_body]
pub(crate) fn hmac_sha256(key: &Vec<u8>, data: &Vec<u8>) -> (r: Vec<u8>)
    ensures
        r@ == hmac_sha256_of(key@, data@),
        r@.len() == 32,
{
    let mut mac = <hmac::Hmac<sha2::Sha256> as hmac::KeyInit>::new_from_slice(key.as_slice())
        .expect("HMAC accepts keys of any length");
    hmac::Mac::update(&mut mac, data.as_slice());
    hmac::Mac::finalize(mac).into_bytes().to_vec()
}

/// Relies on cbc's `Encryptor<aes::Aes256>`: PKCS#7 padding always adds one
/// to sixteen bytes, so the ciphertext length is the plaintext length
/// rounded up to the next multiple of sixteen.
#[verifier::external_body]
pub(crate) fn aes256_cbc_encrypt(key: &Vec<u8>, iv: &Vec<u8>, plain: &Vec<u8>) -> (r: Vec<u8>)
    requires
        key@.len() == 32,
        iv@.len() == 16,
    ensures
        r@ == aes256_cbc_encrypt_of(key@, iv@, plain@),
        r@.len() == plain@.len() + 16 - (plain@.len() % 16),
{
    let key_arr: [u8; 32] = key.as_slice().try_into().expect("key length checked");
    let iv_arr: [u8; 16] = iv.as_slice().try_into().expect("iv length checked");
    let enc = <cbc::Encryptor<aes::Aes256> as cbc::cipher::KeyIvInit>::new(
        &key_arr.into(),
        &iv_arr.into(),
    );
    cbc::cipher::BlockModeEncrypt::encrypt_padded_vec::<cbc::cipher::block_padding::Pkcs7>(
        enc,
        plain.as_slice(),
    )
}

/// Relies on cbc's `Decryptor<aes::Aes256>`: decryption inverts encryption,
/// returning the unique plaintext whose encryption under the same key and
/// initialization vector is the ciphertext, and failing when there is none
/// (wrong length or malformed padding).
#[verifier::external_body]
pub(crate) fn aes256_cbc_decrypt(key: &Vec<u8>, iv: &Vec<u8>, cipher: &Vec<u8>) -> (r: Option<
    Vec<u8>,
>)
    requires
        key@.len() == 32,
        iv@.len() == 16,
    ensures
        r matches Some(p) ==> aes256_cbc_encrypt_of(key@, iv@, p@) == cipher@,
        r is None ==> forall|p: Seq<u8>| aes256_cbc_encrypt_of(key@, iv@, p) != cipher@,
        r matches Some(q) ==> forall|p: Seq<u8>|
            aes256_cbc_encrypt_of(key@, iv@, p) == cipher@ ==> p == q@,
{
    let key_arr: [u8; 32] = key.as_slice().try_into().expect("key length checked");
    let iv_arr: [u8; 16] = iv.as_slice().try_into().expect("iv length checked");
    let dec = <cbc::Decryptor<aes::Aes256> as cbc::cipher::KeyIvInit>::new(
        &key_arr.into(),
        &iv_arr.into(),
    );
    match cbc::cipher::BlockModeDecrypt::decrypt_padded_vec::<cbc::cipher::block_padding::Pkcs7>(
        dec,
        cipher.as_slice(),
    ) {
        Ok(p) => Some(p),
        Err(_) => None,
    }
}

/// Relies on rand's `rng` handle and its `Rng::fill_bytes`: nothing is
/// promised of the bytes beyond their number.
#[verifier::external_body]
pub(crate) fn random_bytes(n: usize) -> (r: Vec<u8>)
    ensures
        r@.len() == n,
{
    let mut buf = vec![0u8; n];
    let mut rng = rand::rng();
    rand::Rng::fill_bytes(&mut rng, buf.as_mut_slice());
    buf
}

/// Relies on num-bigint's `BigUint::modpow` (`(self ^ exponent) % modulus`,
/// panicking on a zero modulus, hence the precondition) together with its
/// big-endian conversions `from_bytes_be` and `to_bytes_be`.
#[verifier::external_body]
pub(crate) fn mod_pow(base: &Vec<u8>, exp: &Vec<u8>, modulus: &Vec<u8>) -> (r: Vec<u8>)
    requires
        bytes_be_to_nat(modulus@) > 0,
    ensures
        r@ == mod_pow_bytes(base@, exp@, modulus@),
{
    let b = num_bigint::BigUint::from_bytes_be(base.as_slice());
    let e = num_bigint::BigUint::from_bytes_be(exp.as_slice());
    let m = num_bigint::BigUint::from_bytes_be(modulus.as_slice());
    b.modpow(&e, &m).to_bytes_be()
}

} // verus!
