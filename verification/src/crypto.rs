//! The cryptography that a script can use.
//!
//! The algorithms are those of the `ring` crate. What is decided here is which of them a script
//! means, and what it gets where its arguments make no sense.

use ring::{aead, digest, hmac, pbkdf2, rand, rsa, signature};
use ring::rand::SecureRandom;
use ring::signature::KeyPair;
use vstd::prelude::*;
use vstd::utf8::*;

use crate::fetch::{ascii_uppercase, unicode_uppercase, uppercase};
use crate::text::str_eq;

verus! {

/// A hash function.
#[derive(Debug, Clone, Copy, PartialEq, Eq, Structural)]
pub enum HashAlgorithm {
    Sha1,
    Sha256,
    Sha384,
    Sha512,
}

impl HashAlgorithm {
    /// The length of a digest in bytes.
    pub open spec fn digest_len(self) -> nat {
        match self {
            HashAlgorithm::Sha1 => 20,
            HashAlgorithm::Sha256 => 32,
            HashAlgorithm::Sha384 => 48,
            HashAlgorithm::Sha512 => 64,
        }
    }

    /// The length of a block in bytes.
    pub open spec fn block_len(self) -> nat {
        match self {
            HashAlgorithm::Sha1 => 64,
            HashAlgorithm::Sha256 => 64,
            HashAlgorithm::Sha384 => 128,
            HashAlgorithm::Sha512 => 128,
        }
    }

    /// The hash function with the name `s`, in upper case.
    pub open spec fn named(s: Seq<char>) -> Option<HashAlgorithm> {
        if s == "SHA-1"@ {
            Some(HashAlgorithm::Sha1)
        } else if s == "SHA-256"@ {
            Some(HashAlgorithm::Sha256)
        } else if s == "SHA-384"@ {
            Some(HashAlgorithm::Sha384)
        } else if s == "SHA-512"@ {
            Some(HashAlgorithm::Sha512)
        } else {
            None
        }
    }

    /// The hash function with the name `s`, in upper case.
    pub fn from_uppercase(s: &str) -> (r: Option<HashAlgorithm>)
        ensures
            r == HashAlgorithm::named(s@),
    {
        if str_eq(s, "SHA-1") {
            Some(HashAlgorithm::Sha1)
        } else if str_eq(s, "SHA-256") {
            Some(HashAlgorithm::Sha256)
        } else if str_eq(s, "SHA-384") {
            Some(HashAlgorithm::Sha384)
        } else if str_eq(s, "SHA-512") {
            Some(HashAlgorithm::Sha512)
        } else {
            None
        }
    }

    /// The hash function with the name `s`, in whatever case.
    pub fn from_name(s: &str) -> (r: Option<HashAlgorithm>)
        ensures
            r == HashAlgorithm::named(unicode_uppercase(s@)),
            is_ascii_chars(s@) ==> r == HashAlgorithm::named(ascii_uppercase(s@)),
    {
        HashAlgorithm::from_uppercase(uppercase(s).as_str())
    }
}

/// How many bytes a hash function takes: its count of bits has sixty-four.
pub open spec fn input_limit() -> nat {
    0x2000_0000_0000_0000
}

/// The digest of `data`.
pub uninterp spec fn digest_of(alg: HashAlgorithm, data: Seq<u8>) -> Seq<u8>;

/// The HMAC of `data` under `key`.
pub uninterp spec fn hmac_of(alg: HashAlgorithm, key: Seq<u8>, data: Seq<u8>) -> Seq<u8>;

/// The `len` bytes that PBKDF2 derives.
pub uninterp spec fn pbkdf2_of(
    alg: HashAlgorithm,
    iterations: u32,
    salt: Seq<u8>,
    password: Seq<u8>,
    len: nat,
) -> Seq<u8>;

/// Calls `ring::digest::digest`, which panics where the number of bits of the input does not
/// fit into sixty-four. The digest is named [`digest_of`] and has the length of the algorithm.
#[verifier::external_body]
fn ring_digest(alg: HashAlgorithm, data: &[u8]) -> (r: Vec<u8>)
    requires
        data@.len() < input_limit(),
    ensures
        r@ == digest_of(alg, data@),
        r@.len() == alg.digest_len(),
{
    let algorithm = match alg {
        HashAlgorithm::Sha1 => &digest::SHA1_FOR_LEGACY_USE_ONLY,
        HashAlgorithm::Sha256 => &digest::SHA256,
        HashAlgorithm::Sha384 => &digest::SHA384,
        HashAlgorithm::Sha512 => &digest::SHA512,
    };
    digest::digest(algorithm, data).as_ref().to_vec()
}

/// Calls `ring::hmac::sign` with a key from `hmac::Key::new`; both panic where the number of
/// bits of their input does not fit into sixty-four. The tag is named [`hmac_of`] and has the
/// length of the algorithm.
#[verifier::external_body]
fn ring_hmac_sign(alg: HashAlgorithm, key: &[u8], data: &[u8]) -> (r: Vec<u8>)
    requires
        key@.len() < input_limit(),
        alg.block_len() + data@.len() < input_limit(),
    ensures
        r@ == hmac_of(alg, key@, data@),
        r@.len() == alg.digest_len(),
{
    let algorithm = match alg {
        HashAlgorithm::Sha1 => hmac::HMAC_SHA1_FOR_LEGACY_USE_ONLY,
        HashAlgorithm::Sha256 => hmac::HMAC_SHA256,
        HashAlgorithm::Sha384 => hmac::HMAC_SHA384,
        HashAlgorithm::Sha512 => hmac::HMAC_SHA512,
    };
    hmac::sign(&hmac::Key::new(algorithm, key), data).as_ref().to_vec()
}

/// Calls `ring::hmac::verify`, which computes the tag as `hmac::sign` does and compares.
#[verifier::external_body]
fn ring_hmac_verify(alg: HashAlgorithm, key: &[u8], data: &[u8], tag: &[u8]) -> (r: bool)
    requires
        key@.len() < input_limit(),
        alg.block_len() + data@.len() < input_limit(),
    ensures
        r == (tag@ == hmac_of(alg, key@, data@)),
{
    let algorithm = match alg {
        HashAlgorithm::Sha1 => hmac::HMAC_SHA1_FOR_LEGACY_USE_ONLY,
        HashAlgorithm::Sha256 => hmac::HMAC_SHA256,
        HashAlgorithm::Sha384 => hmac::HMAC_SHA384,
        HashAlgorithm::Sha512 => hmac::HMAC_SHA512,
    };
    hmac::verify(&hmac::Key::new(algorithm, key), data, tag).is_ok()
}

/// Calls `ring::pbkdf2::derive` on a buffer of `len` bytes. It panics where more output is
/// asked for than the algorithm has, or where an input is too long for the hash function. What
/// it fills the buffer with is named [`pbkdf2_of`].
#[verifier::external_body]
fn ring_pbkdf2(alg: HashAlgorithm, iterations: u32, salt: &[u8], password: &[u8], len: usize) -> (r: Vec<u8>)
    requires
        iterations > 0,
        len <= isize::MAX,
        len <= u32::MAX * alg.digest_len(),
        password@.len() < input_limit(),
        alg.block_len() + salt@.len() + 4 < input_limit(),
    ensures
        r@ == pbkdf2_of(alg, iterations, salt@, password@, len as nat),
        r@.len() == len,
{
    let algorithm = match alg {
        HashAlgorithm::Sha1 => pbkdf2::PBKDF2_HMAC_SHA1,
        HashAlgorithm::Sha256 => pbkdf2::PBKDF2_HMAC_SHA256,
        HashAlgorithm::Sha384 => pbkdf2::PBKDF2_HMAC_SHA384,
        HashAlgorithm::Sha512 => pbkdf2::PBKDF2_HMAC_SHA512,
    };
    let mut out = vec![0u8; len];
    let iterations = std::num::NonZeroU32::new(iterations).unwrap();
    pbkdf2::derive(algorithm, iterations, salt, password, &mut out);
    out
}

/// Whether a hash function takes the bytes, where there are any.
pub open spec fn fits(data: Option<Vec<u8>>) -> bool {
    data matches Some(d) ==> d@.len() + 132 < input_limit()
}

/// The hash function that a script names.
pub open spec fn chosen(name: Option<String>) -> Option<HashAlgorithm> {
    match name {
        Some(n) => HashAlgorithm::named(unicode_uppercase(n@)),
        None => None,
    }
}

/// The hash function that a script names.
fn choose_hash(name: &Option<String>) -> (r: Option<HashAlgorithm>)
    ensures
        r == chosen(*name),
{
    match name {
        Some(n) => HashAlgorithm::from_name(n.as_str()),
        None => None,
    }
}

/// A script computes a digest. Whatever could not be read is missing. Gives nothing for a hash
/// function that does not exist, or where an argument is missing.
pub fn native_digest(args: usize, algorithm: Option<String>, data: Option<Vec<u8>>) -> (r: Option<
    Vec<u8>,
>)
    requires
        fits(data),
    ensures
        match (chosen(algorithm), data) {
            (Some(alg), Some(d)) if args >= 2 => r matches Some(v) && v@ == digest_of(alg, d@)
                && v@.len() == alg.digest_len(),
            _ => r is None,
        },
{
    if args < 2 {
        return None;
    }
    match (choose_hash(&algorithm), data) {
        (Some(alg), Some(d)) => Some(ring_digest(alg, d.as_slice())),
        _ => None,
    }
}

/// A script signs with HMAC. Whatever could not be read is missing. Gives nothing for a hash
/// function that does not exist, or where an argument is missing.
pub fn native_hmac_sign(
    args: usize,
    algorithm: Option<String>,
    key: Option<Vec<u8>>,
    data: Option<Vec<u8>>,
) -> (r: Option<Vec<u8>>)
    requires
        fits(key),
        fits(data),
    ensures
        match (chosen(algorithm), key, data) {
            (Some(alg), Some(k), Some(d)) if args >= 3 => r matches Some(v) && v@ == hmac_of(
                alg,
                k@,
                d@,
            ) && v@.len() == alg.digest_len(),
            _ => r is None,
        },
{
    if args < 3 {
        return None;
    }
    match (choose_hash(&algorithm), key, data) {
        (Some(alg), Some(k), Some(d)) => Some(ring_hmac_sign(alg, k.as_slice(), d.as_slice())),
        _ => None,
    }
}

/// A script verifies an HMAC. Whatever could not be read is missing; then nothing is verified.
pub fn native_hmac_verify(
    args: usize,
    algorithm: Option<String>,
    key: Option<Vec<u8>>,
    signature: Option<Vec<u8>>,
    data: Option<Vec<u8>>,
) -> (r: bool)
    requires
        fits(key),
        fits(data),
    ensures
        r == (match (chosen(algorithm), key, signature, data) {
            (Some(alg), Some(k), Some(s), Some(d)) => args >= 4 && s@ == hmac_of(alg, k@, d@),
            _ => false,
        }),
{
    if args < 4 {
        return false;
    }
    match (choose_hash(&algorithm), key, signature, data) {
        (Some(alg), Some(k), Some(s), Some(d)) => ring_hmac_verify(
            alg,
            k.as_slice(),
            d.as_slice(),
            s.as_slice(),
        ),
        _ => false,
    }
}

/// What a script that derives bits with PBKDF2 is given. No iterations count as one, and bits that
/// make no whole byte are dropped.
pub open spec fn derived(
    args: usize,
    algorithm: Option<String>,
    password: Option<Vec<u8>>,
    salt: Option<Vec<u8>>,
    iterations: Option<u32>,
    length_bits: Option<usize>,
) -> Option<Seq<u8>> {
    match (chosen(algorithm), password, salt, iterations, length_bits) {
        (Some(alg), Some(p), Some(s), Some(i), Some(n)) if args >= 5 => Some(
            pbkdf2_of(
                alg,
                if i == 0 {
                    1
                } else {
                    i
                },
                s@,
                p@,
                (n / 8) as nat,
            ),
        ),
        _ => None,
    }
}

/// Whether PBKDF2 yields as many bits as are asked for, where the hash function exists.
pub open spec fn derivable(algorithm: Option<String>, length_bits: Option<usize>) -> bool {
    match (chosen(algorithm), length_bits) {
        (Some(alg), Some(n)) => n / 8 <= u32::MAX * alg.digest_len(),
        _ => true,
    }
}

/// Bytes as a sequence, where there are any.
pub open spec fn bytes_view(v: Option<Vec<u8>>) -> Option<Seq<u8>> {
    match v {
        Some(b) => Some(b@),
        None => None,
    }
}

/// A script derives bits with PBKDF2. Whatever could not be read is missing. No iterations count
/// as one, and bits that make no whole byte are dropped. Gives nothing for a hash function that
/// does not exist, or where an argument is missing.
pub fn native_pbkdf2_derive_bits(
    args: usize,
    algorithm: Option<String>,
    password: Option<Vec<u8>>,
    salt: Option<Vec<u8>>,
    iterations: Option<u32>,
    length_bits: Option<usize>,
) -> (r: Option<Vec<u8>>)
    requires
        fits(password),
        fits(salt),
        derivable(algorithm, length_bits),
    ensures
        bytes_view(r) == derived(args, algorithm, password, salt, iterations, length_bits),
        r matches Some(v) ==> v@.len() == length_bits->0 / 8,
{
    if args < 5 {
        return None;
    }
    match (choose_hash(&algorithm), password, salt, iterations, length_bits) {
        (Some(alg), Some(p), Some(s), Some(i), Some(n)) => {
            let count: u32 = if i == 0 {
                1
            } else {
                i
            };
            Some(ring_pbkdf2(alg, count, s.as_slice(), p.as_slice(), n / 8))
        },
        _ => None,
    }
}

/// A script derives bits with PBKDF2, however many it asks for. Gives nothing at all where PBKDF2
/// does not yield as many.
pub fn try_pbkdf2_derive_bits(
    args: usize,
    algorithm: Option<String>,
    password: Option<Vec<u8>>,
    salt: Option<Vec<u8>>,
    iterations: Option<u32>,
    length_bits: Option<usize>,
) -> (r: Option<Option<Vec<u8>>>)
    requires
        fits(password),
        fits(salt),
    ensures
        match r {
            Some(given) => derivable(algorithm, length_bits) && bytes_view(given) == derived(
                args,
                algorithm,
                password,
                salt,
                iterations,
                length_bits,
            ),
            None => !derivable(algorithm, length_bits),
        },
{
    if let (Some(alg), Some(n)) = (choose_hash(&algorithm), length_bits) {
        let digest_len: u64 = match alg {
            HashAlgorithm::Sha1 => 20,
            HashAlgorithm::Sha256 => 32,
            HashAlgorithm::Sha384 => 48,
            HashAlgorithm::Sha512 => 64,
        };
        if (n / 8) as u64 > 0xFFFF_FFFF * digest_len {
            return None;
        }
    }
    Some(native_pbkdf2_derive_bits(args, algorithm, password, salt, iterations, length_bits))
}

/// A size of AES keys.
#[derive(Debug, Clone, Copy, PartialEq, Eq, Structural)]
pub enum AesKeySize {
    Bits128,
    Bits256,
}

impl AesKeySize {
    /// The length of a key in bytes.
    pub open spec fn key_len(self) -> nat {
        match self {
            AesKeySize::Bits128 => 16,
            AesKeySize::Bits256 => 32,
        }
    }

    /// The size of keys of `len` bytes.
    pub open spec fn of_len(len: nat) -> Option<AesKeySize> {
        if len == 16 {
            Some(AesKeySize::Bits128)
        } else if len == 32 {
            Some(AesKeySize::Bits256)
        } else {
            None
        }
    }
}

/// The length of a nonce in bytes.
pub open spec fn nonce_len() -> nat {
    12
}

/// The length of an authentication tag in bytes.
pub open spec fn tag_len() -> nat {
    16
}

/// How many bytes AES-GCM encrypts under one nonce.
pub open spec fn gcm_limit() -> nat {
    0xF_FFFF_FFE0
}

/// The ciphertext of `plain` with its tag behind it, where AES-GCM encrypts it.
pub uninterp spec fn gcm_sealed(
    size: AesKeySize,
    key: Seq<u8>,
    nonce: Seq<u8>,
    aad: Seq<u8>,
    plain: Seq<u8>,
) -> Option<Seq<u8>>;

/// The plaintext of a ciphertext with its tag behind it, where the tag is right.
pub uninterp spec fn gcm_opened(
    size: AesKeySize,
    key: Seq<u8>,
    nonce: Seq<u8>,
    aad: Seq<u8>,
    sealed: Seq<u8>,
) -> Option<Seq<u8>>;

/// Calls `aead::LessSafeKey::seal_in_place_append_tag`, with a key from `aead::UnboundKey::new`
/// and a nonce from `aead::Nonce::try_assume_unique_for_key`. The result is named
/// [`gcm_sealed`]: it exists for a nonce of the right length and a plaintext that is not too
/// long, is as long as the plaintext and the tag, and opens to the plaintext again.
#[verifier::external_body]
fn ring_gcm_seal(size: AesKeySize, key: &[u8], nonce: &[u8], aad: &[u8], plain: Vec<u8>) -> (r: Option<Vec<u8>>)
    requires
        key@.len() == size.key_len(),
        aad@.len() < input_limit(),
    ensures
        r.is_some() == (nonce@.len() == nonce_len() && plain@.len() <= gcm_limit()),
        match r {
            Some(v) => gcm_sealed(size, key@, nonce@, aad@, plain@) == Some(v@),
            None => gcm_sealed(size, key@, nonce@, aad@, plain@) is None,
        },
        r matches Some(v) ==> v@.len() == plain@.len() + tag_len() && gcm_opened(
            size,
            key@,
            nonce@,
            aad@,
            v@,
        ) == Some(plain@),
{
    let algorithm = match size {
        AesKeySize::Bits128 => &aead::AES_128_GCM,
        AesKeySize::Bits256 => &aead::AES_256_GCM,
    };
    let key = aead::LessSafeKey::new(aead::UnboundKey::new(algorithm, key).ok()?);
    let nonce = aead::Nonce::try_assume_unique_for_key(nonce).ok()?;
    let mut data = plain;
    key.seal_in_place_append_tag(nonce, aead::Aad::from(aad), &mut data).ok()?;
    Some(data)
}

/// Calls `aead::LessSafeKey::open_in_place`, with a key from `aead::UnboundKey::new` and a nonce
/// from `aead::Nonce::try_assume_unique_for_key`. The result is named [`gcm_opened`]: there is
/// none without a nonce of the right length or a whole tag, and where there is one it is as long
/// as the ciphertext, and sealing it gives the input again.
#[verifier::external_body]
fn ring_gcm_open(size: AesKeySize, key: &[u8], nonce: &[u8], aad: &[u8], sealed: Vec<u8>) -> (r: Option<Vec<u8>>)
    requires
        key@.len() == size.key_len(),
        aad@.len() < input_limit(),
    ensures
        match r {
            Some(v) => gcm_opened(size, key@, nonce@, aad@, sealed@) == Some(v@),
            None => gcm_opened(size, key@, nonce@, aad@, sealed@) is None,
        },
        nonce@.len() != nonce_len() || sealed@.len() < tag_len() ==> r is None,
        r matches Some(v) ==> v@.len() + tag_len() == sealed@.len() && gcm_sealed(
            size,
            key@,
            nonce@,
            aad@,
            v@,
        ) == Some(sealed@),
{
    let algorithm = match size {
        AesKeySize::Bits128 => &aead::AES_128_GCM,
        AesKeySize::Bits256 => &aead::AES_256_GCM,
    };
    let key = aead::LessSafeKey::new(aead::UnboundKey::new(algorithm, key).ok()?);
    let nonce = aead::Nonce::try_assume_unique_for_key(nonce).ok()?;
    let mut data = sealed;
    Some(key.open_in_place(nonce, aead::Aad::from(aad), &mut data).ok()?.to_vec())
}

/// The size of AES keys of `len` bytes, where there is one that AES-GCM is offered for.
pub fn aes_key_size(len: usize) -> (r: Option<AesKeySize>)
    ensures
        r == AesKeySize::of_len(len as nat),
{
    if len == 16 {
        Some(AesKeySize::Bits128)
    } else if len == 32 {
        Some(AesKeySize::Bits256)
    } else {
        None
    }
}

/// A script encrypts with AES-GCM; the tag follows the ciphertext. Whatever could not be read is
/// missing. Gives nothing where an argument is missing, where the key or the nonce does not have
/// the right length, or where there is too much to encrypt.
pub fn native_aes_gcm_seal(
    key: Option<Vec<u8>>,
    nonce: Option<Vec<u8>>,
    data: Option<Vec<u8>>,
    aad: Option<Vec<u8>>,
) -> (r: Option<Vec<u8>>)
    requires
        fits(aad),
    ensures
        match (key, nonce, data, aad) {
            (Some(k), Some(n), Some(d), Some(a)) => match AesKeySize::of_len(k@.len()) {
                Some(size) => {
                    &&& r is Some <==> n@.len() == nonce_len() && d@.len() <= gcm_limit()
                    &&& r matches Some(v) ==> gcm_sealed(size, k@, n@, a@, d@) == Some(v@)
                        && gcm_opened(size, k@, n@, a@, v@) == Some(d@) && v@.len() == d@.len()
                        + tag_len()
                },
                None => r is None,
            },
            _ => r is None,
        },
{
    match (key, nonce, data, aad) {
        (Some(k), Some(n), Some(d), Some(a)) => match aes_key_size(k.len()) {
            Some(size) => ring_gcm_seal(size, k.as_slice(), n.as_slice(), a.as_slice(), d),
            None => None,
        },
        _ => None,
    }
}

/// A script decrypts with AES-GCM; the tag follows the ciphertext. Whatever could not be read is
/// missing. Gives nothing where an argument is missing, where the key does not have the right
/// length, or where the tag is not right.
pub fn native_aes_gcm_open(
    key: Option<Vec<u8>>,
    nonce: Option<Vec<u8>>,
    data: Option<Vec<u8>>,
    aad: Option<Vec<u8>>,
) -> (r: Option<Vec<u8>>)
    requires
        fits(aad),
    ensures
        match (key, nonce, data, aad) {
            (Some(k), Some(n), Some(d), Some(a)) => match AesKeySize::of_len(k@.len()) {
                Some(size) => {
                    &&& match r {
                        Some(v) => gcm_opened(size, k@, n@, a@, d@) == Some(v@) && gcm_sealed(
                            size,
                            k@,
                            n@,
                            a@,
                            v@,
                        ) == Some(d@),
                        None => gcm_opened(size, k@, n@, a@, d@) is None,
                    }
                    &&& n@.len() != nonce_len() || d@.len() < tag_len() ==> r is None
                },
                None => r is None,
            },
            _ => r is None,
        },
{
    match (key, nonce, data, aad) {
        (Some(k), Some(n), Some(d), Some(a)) => match aes_key_size(k.len()) {
            Some(size) => ring_gcm_open(size, k.as_slice(), n.as_slice(), a.as_slice(), d),
            None => None,
        },
        _ => None,
    }
}

/// A new key pair.
pub struct EcdsaKeys {
    /// The private key, as a PKCS#8 document.
    pub private_key: Vec<u8>,
    /// The public key.
    pub public_key: Vec<u8>,
}

/// The public key of a private key in a PKCS#8 document, where it is one of ECDSA on P-256.
pub uninterp spec fn ecdsa_public_of(pkcs8: Seq<u8>) -> Option<Seq<u8>>;

/// Whether a signature is one of `data` under a public key of ECDSA on P-256 with SHA-256.
pub uninterp spec fn ecdsa_accepts(public: Seq<u8>, data: Seq<u8>, sig: Seq<u8>) -> bool;

/// Calls `signature::EcdsaKeyPair::generate_pkcs8`, which fails where the system has no random
/// numbers. A new document holds a key pair. Which one is left to chance.
#[verifier::external_body]
fn ring_ecdsa_generate() -> (r: Option<Vec<u8>>)
    ensures
        r matches Some(v) ==> ecdsa_public_of(v@) is Some,
{
    let algorithm = &signature::ECDSA_P256_SHA256_FIXED_SIGNING;
    let rng = rand::SystemRandom::new();
    let document = signature::EcdsaKeyPair::generate_pkcs8(algorithm, &rng).ok()?;
    Some(document.as_ref().to_vec())
}

/// Calls `signature::EcdsaKeyPair::from_pkcs8` and `public_key` on the result. It fails on a
/// document that holds no such key pair, and where the system has no random numbers; otherwise
/// the public key is the one named [`ecdsa_public_of`].
#[verifier::external_body]
fn ring_ecdsa_public_key(pkcs8: &[u8]) -> (r: Option<Vec<u8>>)
    ensures
        r matches Some(v) ==> ecdsa_public_of(pkcs8@) == Some(v@),
        ecdsa_public_of(pkcs8@) is None ==> r is None,
{
    let algorithm = &signature::ECDSA_P256_SHA256_FIXED_SIGNING;
    let rng = rand::SystemRandom::new();
    let pair = signature::EcdsaKeyPair::from_pkcs8(algorithm, pkcs8, &rng).ok()?;
    Some(pair.public_key().as_ref().to_vec())
}

/// Calls `sign` on a key pair from `signature::EcdsaKeyPair::from_pkcs8`. It fails on a document
/// that holds no such key pair, and where the system has no random numbers. A signature has
/// sixty-four bytes and is accepted under the public key. Which of the many it is is left to
/// chance. Hashing the message panics where the number of its bits does not fit into sixty-four.
#[verifier::external_body]
fn ring_ecdsa_sign(pkcs8: &[u8], data: &[u8]) -> (r: Option<Vec<u8>>)
    requires
        data@.len() < input_limit(),
    ensures
        ecdsa_public_of(pkcs8@) is None ==> r is None,
        r matches Some(v) ==> v@.len() == 64 && ecdsa_accepts(
            ecdsa_public_of(pkcs8@)->0,
            data@,
            v@,
        ),
{
    let algorithm = &signature::ECDSA_P256_SHA256_FIXED_SIGNING;
    let rng = rand::SystemRandom::new();
    let pair = signature::EcdsaKeyPair::from_pkcs8(algorithm, pkcs8, &rng).ok()?;
    Some(pair.sign(&rng, data).ok()?.as_ref().to_vec())
}

/// Calls `signature::UnparsedPublicKey::verify` for `ECDSA_P256_SHA256_FIXED`; whether it accepts
/// is named [`ecdsa_accepts`]. Hashing the message panics where the number of its bits does not
/// fit into sixty-four.
#[verifier::external_body]
fn ring_ecdsa_verify(public: &[u8], data: &[u8], sig: &[u8]) -> (r: bool)
    requires
        data@.len() < input_limit(),
    ensures
        r == ecdsa_accepts(public@, data@, sig@),
{
    signature::UnparsedPublicKey::new(&signature::ECDSA_P256_SHA256_FIXED, public).verify(
        data,
        sig,
    ).is_ok()
}

/// A key pair from its document and its public key, where there are both.
pub fn ecdsa_keys(private_key: Option<Vec<u8>>, public_key: Option<Vec<u8>>) -> (r: Option<
    EcdsaKeys,
>)
    ensures
        match (private_key, public_key) {
            (Some(p), Some(q)) => r == Some((EcdsaKeys { private_key: p, public_key: q })),
            _ => r is None,
        },
{
    match (private_key, public_key) {
        (Some(private_key), Some(public_key)) => Some(EcdsaKeys { private_key, public_key }),
        _ => None,
    }
}

/// A script generates a key pair. Gives nothing where the system has no random numbers.
pub fn native_ecdsa_generate_key() -> (r: Option<EcdsaKeys>)
    ensures
        r matches Some(keys) ==> ecdsa_public_of(keys.private_key@) == Some(keys.public_key@),
{
    match ring_ecdsa_generate() {
        Some(document) => {
            let public = ring_ecdsa_public_key(document.as_slice());
            ecdsa_keys(Some(document), public)
        },
        None => None,
    }
}

/// A script signs with ECDSA. Whatever could not be read is missing. Gives nothing where an
/// argument is missing, where the key is none, or where the system has no random numbers.
pub fn native_ecdsa_sign(args: usize, private_key: Option<Vec<u8>>, data: Option<Vec<u8>>) -> (r:
    Option<Vec<u8>>)
    requires
        fits(data),
    ensures
        r is Some ==> asks_to_sign(args, private_key, data) && ecdsa_public_of(
            private_key->0@,
        ) is Some,
        r matches Some(v) ==> v@.len() == 64 && ecdsa_accepts(
            ecdsa_public_of(private_key->0@)->0,
            data->0@,
            v@,
        ),
{
    let signed = match (&private_key, &data) {
        (Some(k), Some(d)) if args >= 2 => ring_ecdsa_sign(k.as_slice(), d.as_slice()),
        _ => None,
    };
    ecdsa_signature(args, &private_key, &data, signed)
}

/// Whether a script that signs with ECDSA has given all arguments, and they could be read.
pub open spec fn asks_to_sign(
    args: usize,
    private_key: Option<Vec<u8>>,
    data: Option<Vec<u8>>,
) -> bool {
    args >= 2 && private_key is Some && data is Some
}

/// What a script that signs with ECDSA is given: the signature, where it has given all arguments
/// and one was made of them.
pub fn ecdsa_signature(
    args: usize,
    private_key: &Option<Vec<u8>>,
    data: &Option<Vec<u8>>,
    signed: Option<Vec<u8>>,
) -> (r: Option<Vec<u8>>)
    ensures
        r == (if asks_to_sign(args, *private_key, *data) {
            signed
        } else {
            None
        }),
{
    if args < 2 || private_key.is_none() || data.is_none() {
        None
    } else {
        signed
    }
}

/// A script verifies an ECDSA signature. Whatever could not be read is missing; then nothing is
/// verified.
pub fn native_ecdsa_verify(
    args: usize,
    public_key: Option<Vec<u8>>,
    signature: Option<Vec<u8>>,
    data: Option<Vec<u8>>,
) -> (r: bool)
    requires
        fits(data),
    ensures
        r == (match (public_key, signature, data) {
            (Some(k), Some(s), Some(d)) => args >= 3 && ecdsa_accepts(k@, d@, s@),
            _ => false,
        }),
{
    if args < 3 {
        return false;
    }
    match (public_key, signature, data) {
        (Some(k), Some(s), Some(d)) => ring_ecdsa_verify(k.as_slice(), d.as_slice(), s.as_slice()),
        _ => false,
    }
}

/// A hash function for RSA signatures.
#[derive(Debug, Clone, Copy, PartialEq, Eq, Structural)]
pub enum RsaHash {
    Sha256,
    Sha384,
    Sha512,
}

impl RsaHash {
    /// The hash function for RSA signatures with the name `s`, in upper case.
    pub open spec fn named(s: Seq<char>) -> Option<RsaHash> {
        match HashAlgorithm::named(s) {
            Some(HashAlgorithm::Sha256) => Some(RsaHash::Sha256),
            Some(HashAlgorithm::Sha384) => Some(RsaHash::Sha384),
            Some(HashAlgorithm::Sha512) => Some(RsaHash::Sha512),
            _ => None,
        }
    }

    /// The hash function for RSA signatures among all hash functions.
    pub fn from_hash(alg: Option<HashAlgorithm>) -> (r: Option<RsaHash>)
        ensures
            r == (match alg {
                Some(HashAlgorithm::Sha256) => Some(RsaHash::Sha256),
                Some(HashAlgorithm::Sha384) => Some(RsaHash::Sha384),
                Some(HashAlgorithm::Sha512) => Some(RsaHash::Sha512),
                _ => None,
            }),
    {
        match alg {
            Some(HashAlgorithm::Sha256) => Some(RsaHash::Sha256),
            Some(HashAlgorithm::Sha384) => Some(RsaHash::Sha384),
            Some(HashAlgorithm::Sha512) => Some(RsaHash::Sha512),
            _ => None,
        }
    }
}

/// The hash function for RSA signatures that a script names.
pub open spec fn chosen_rsa(name: Option<String>) -> Option<RsaHash> {
    match name {
        Some(n) => RsaHash::named(unicode_uppercase(n@)),
        None => None,
    }
}

/// The signature of `data` under a private key in DER, where it is one of RSA.
pub uninterp spec fn rsa_signature_of(hash: RsaHash, der: Seq<u8>, data: Seq<u8>) -> Option<Seq<u8>>;

/// Whether a signature is one of `data` under an RSA public key in DER.
pub uninterp spec fn rsa_accepts(hash: RsaHash, public: Seq<u8>, data: Seq<u8>, sig: Seq<u8>) -> bool;

/// Calls `rsa::KeyPair::from_der`, and `sign` on the result with a PKCS#1 padding, which takes
/// nothing from chance. The result is named [`rsa_signature_of`]. Hashing the message panics
/// where the number of its bits does not fit into sixty-four.
#[verifier::external_body]
fn ring_rsa_sign(hash: RsaHash, der: &[u8], data: &[u8]) -> (r: Option<Vec<u8>>)
    requires
        data@.len() < input_limit(),
    ensures
        match r {
            Some(v) => rsa_signature_of(hash, der@, data@) == Some(v@),
            None => rsa_signature_of(hash, der@, data@) is None,
        },
{
    let padding: &'static dyn signature::RsaEncoding = match hash {
        RsaHash::Sha256 => &signature::RSA_PKCS1_SHA256,
        RsaHash::Sha384 => &signature::RSA_PKCS1_SHA384,
        RsaHash::Sha512 => &signature::RSA_PKCS1_SHA512,
    };
    let pair = rsa::KeyPair::from_der(der).ok()?;
    let mut sig = vec![0u8; pair.public().modulus_len()];
    pair.sign(padding, &rand::SystemRandom::new(), data, &mut sig).ok()?;
    Some(sig)
}

/// Calls `signature::UnparsedPublicKey::verify` for the PKCS#1 signatures with keys of 2048 to
/// 8192 bits; whether it accepts is named [`rsa_accepts`]. Hashing the message panics where the
/// number of its bits does not fit into sixty-four.
#[verifier::external_body]
fn ring_rsa_verify(hash: RsaHash, public: &[u8], data: &[u8], sig: &[u8]) -> (r: bool)
    requires
        data@.len() < input_limit(),
    ensures
        r == rsa_accepts(hash, public@, data@, sig@),
{
    let algorithm: &'static dyn signature::VerificationAlgorithm = match hash {
        RsaHash::Sha256 => &signature::RSA_PKCS1_2048_8192_SHA256,
        RsaHash::Sha384 => &signature::RSA_PKCS1_2048_8192_SHA384,
        RsaHash::Sha512 => &signature::RSA_PKCS1_2048_8192_SHA512,
    };
    signature::UnparsedPublicKey::new(algorithm, public).verify(data, sig).is_ok()
}

/// A script signs with RSA. Whatever could not be read is missing. Gives nothing where an
/// argument is missing, for a hash function that is not offered, or where the key is none.
pub fn native_rsa_sign(
    args: usize,
    hash: Option<String>,
    private_key: Option<Vec<u8>>,
    data: Option<Vec<u8>>,
) -> (r: Option<Vec<u8>>)
    requires
        fits(data),
    ensures
        match (chosen_rsa(hash), private_key, data) {
            (Some(h), Some(k), Some(d)) if args >= 3 => match r {
                Some(v) => rsa_signature_of(h, k@, d@) == Some(v@),
                None => rsa_signature_of(h, k@, d@) is None,
            },
            _ => r is None,
        },
{
    if args < 3 {
        return None;
    }
    match (RsaHash::from_hash(choose_hash(&hash)), private_key, data) {
        (Some(h), Some(k), Some(d)) => ring_rsa_sign(h, k.as_slice(), d.as_slice()),
        _ => None,
    }
}

/// A script verifies an RSA signature. Whatever could not be read is missing; then nothing is
/// verified, nor for a hash function that is not offered.
pub fn native_rsa_verify(
    args: usize,
    hash: Option<String>,
    public_key: Option<Vec<u8>>,
    signature: Option<Vec<u8>>,
    data: Option<Vec<u8>>,
) -> (r: bool)
    requires
        fits(data),
    ensures
        r == (match (chosen_rsa(hash), public_key, signature, data) {
            (Some(h), Some(k), Some(s), Some(d)) => args >= 4 && rsa_accepts(h, k@, d@, s@),
            _ => false,
        }),
{
    if args < 4 {
        return false;
    }
    match (RsaHash::from_hash(choose_hash(&hash)), public_key, signature, data) {
        (Some(h), Some(k), Some(s), Some(d)) => ring_rsa_verify(
            h,
            k.as_slice(),
            d.as_slice(),
            s.as_slice(),
        ),
        _ => false,
    }
}

/// How many random bytes a script may ask for at once.
pub const RANDOM_VALUES_QUOTA: usize = 65536;

/// Why a script gets no random values.
#[derive(Debug, Clone, Copy, PartialEq, Eq, Structural)]
pub enum RandomError {
    /// The argument is no array of integers.
    TypeMismatch,
    /// The array is too large.
    QuotaExceeded,
    /// The system has no random numbers.
    Operation,
}

impl RandomError {
    /// The name of the exception.
    pub fn name(&self) -> (r: &'static str)
        ensures
            r@ == (match *self {
                RandomError::TypeMismatch => "TypeMismatchError"@,
                RandomError::QuotaExceeded => "QuotaExceededError"@,
                RandomError::Operation => "OperationError"@,
            }),
    {
        match self {
            RandomError::TypeMismatch => "TypeMismatchError",
            RandomError::QuotaExceeded => "QuotaExceededError",
            RandomError::Operation => "OperationError",
        }
    }

    /// The message of the exception.
    pub fn message(&self) -> (r: &'static str)
        ensures
            r@ == (match *self {
                RandomError::TypeMismatch => "crypto.getRandomValues expects an integer TypedArray"@,
                RandomError::QuotaExceeded => "crypto.getRandomValues accepts at most 65536 bytes"@,
                RandomError::Operation => "the system RNG failed"@,
            }),
    {
        match self {
            RandomError::TypeMismatch => "crypto.getRandomValues expects an integer TypedArray",
            RandomError::QuotaExceeded => "crypto.getRandomValues accepts at most 65536 bytes",
            RandomError::Operation => "the system RNG failed",
        }
    }
}

/// The kinds of views of a buffer that a script can have.
#[derive(Debug, Clone, Copy, PartialEq, Eq, Structural)]
pub enum ViewKind {
    Int8,
    Uint8,
    Uint8Clamped,
    Int16,
    Uint16,
    Int32,
    Uint32,
    BigInt64,
    BigUint64,
    Float,
    DataView,
}

/// Whether a view is an array of integers.
pub fn is_integer_view(kind: ViewKind) -> (r: bool)
    ensures
        r == !(kind is Float || kind is DataView),
{
    match kind {
        ViewKind::Float => false,
        ViewKind::DataView => false,
        _ => true,
    }
}

/// Calls `SecureRandom::fill` of `rand::SystemRandom` on a buffer of `len` bytes. It may fail.
/// What the bytes are is left to chance.
#[verifier::external_body]
fn ring_random(len: usize) -> (r: Option<Vec<u8>>)
    requires
        len <= isize::MAX,
    ensures
        r matches Some(v) ==> v@.len() == len,
{
    let mut bytes = vec![0u8; len];
    rand::SystemRandom::new().fill(&mut bytes).ok()?;
    Some(bytes)
}

/// What a script that asked for `len` bytes gets, where `filled` came from the system.
pub fn random_values_result(filled: Option<Vec<u8>>) -> (r: Result<Vec<u8>, RandomError>)
    ensures
        r == (match filled {
            Some(v) => Ok::<Vec<u8>, RandomError>(v),
            None => Err(RandomError::Operation),
        }),
{
    match filled {
        Some(v) => Ok(v),
        None => Err(RandomError::Operation),
    }
}

/// A script asks for random values for a view of `len` bytes; the kind is missing where the
/// argument is no view. Fails for anything but an array of integers of at most
/// [`RANDOM_VALUES_QUOTA`] bytes.
pub fn native_get_random_values(kind: Option<ViewKind>, len: usize) -> (r: Result<
    Vec<u8>,
    RandomError,
>)
    ensures
        ({
            let integers = kind matches Some(k) && !(k is Float || k is DataView);
            &&& r == Err::<Vec<u8>, RandomError>(RandomError::TypeMismatch) <==> !integers
            &&& r == Err::<Vec<u8>, RandomError>(RandomError::QuotaExceeded) <==> integers && len
                > RANDOM_VALUES_QUOTA
            &&& r matches Ok(v) ==> v@.len() == len
        }),
{
    let integers = match kind {
        Some(k) => is_integer_view(k),
        None => false,
    };
    if !integers {
        return Err(RandomError::TypeMismatch);
    }
    if len > RANDOM_VALUES_QUOTA {
        return Err(RandomError::QuotaExceeded);
    }
    random_values_result(ring_random(len))
}

/// Whether `c` is a hexadecimal digit, with letters in lower case.
pub open spec fn is_hex(c: char) -> bool {
    ('0' <= c && c <= '9') || ('a' <= c && c <= 'f')
}

/// Whether `s` is a random UUID in its usual notation.
pub open spec fn is_uuid_v4(s: Seq<char>) -> bool {
    &&& s.len() == 36
    &&& forall|i: int|
        0 <= i < 36 ==> if i == 8 || i == 13 || i == 18 || i == 23 {
            #[trigger] s[i] == '-'
        } else {
            is_hex(s[i])
        }
    &&& s[14] == '4'
    &&& s[19] == '8' || s[19] == '9' || s[19] == 'a' || s[19] == 'b'
}

/// The digit for a number below sixteen, in lower case.
pub open spec fn hex_digit(n: int) -> char {
    if n < 10 {
        ('0' as int + n) as char
    } else {
        ('a' as int + (n - 10)) as char
    }
}

/// Bytes in hexadecimal notation.
pub open spec fn hex_of(b: Seq<u8>) -> Seq<char> {
    Seq::new(
        2 * b.len(),
        |i: int|
            hex_digit(
                if i % 2 == 0 {
                    b[i / 2] as int / 16
                } else {
                    b[i / 2] as int % 16
                },
            ),
    )
}

/// Sixteen bytes with the version and the variant of a random UUID in them.
pub open spec fn stamped(b: Seq<u8>) -> Seq<u8> {
    b.update(6, (0x40 + b[6] % 16) as u8).update(8, (0x80 + b[8] % 64) as u8)
}

/// Sixteen bytes in the usual notation of a UUID.
pub open spec fn uuid_notation(b: Seq<u8>) -> Seq<char> {
    hex_of(b.subrange(0, 4)) + "-"@ + hex_of(b.subrange(4, 6)) + "-"@ + hex_of(b.subrange(6, 8))
        + "-"@ + hex_of(b.subrange(8, 10)) + "-"@ + hex_of(b.subrange(10, 16))
}

/// Calls `uuid::Builder::from_random_bytes` and writes the UUID in its usual notation: the bytes
/// in hexadecimal, with the bits of the version and of the variant set.
#[verifier::external_body]
fn uuid_from_random_bytes(b: &[u8]) -> (r: String)
    requires
        b@.len() == 16,
    ensures
        r@ == uuid_notation(stamped(b@)),
{
    let bytes: [u8; 16] = b.try_into().unwrap();
    uuid::Builder::from_random_bytes(bytes).into_uuid().to_string()
}

/// The UUID that sixteen random bytes make has the version and the variant of a random one.
pub proof fn random_bytes_make_a_uuid(b: Seq<u8>)
    requires
        b.len() == 16,
    ensures
        is_uuid_v4(uuid_notation(stamped(b))),
{
    reveal_strlit("-");
    let s = uuid_notation(stamped(b));
    assert(s.len() == 36);
    assert(s[14] == hex_digit(stamped(b)[6] as int / 16));
    assert(s[19] == hex_digit(stamped(b)[8] as int / 16));
}

/// The UUID for a script, where `filled` came from the system.
pub fn random_uuid_result(filled: Option<Vec<u8>>) -> (r: Option<String>)
    requires
        filled matches Some(b) ==> b@.len() == 16,
    ensures
        match filled {
            Some(b) => r matches Some(s) && s@ == uuid_notation(stamped(b@)) && is_uuid_v4(s@),
            None => r is None,
        },
{
    match filled {
        Some(b) => {
            proof {
                random_bytes_make_a_uuid(b@);
            }
            Some(uuid_from_random_bytes(b.as_slice()))
        },
        None => None,
    }
}

/// A script asks for a random UUID. Gives nothing where the system has no random numbers.
pub fn native_random_uuid() -> (r: Option<String>)
    ensures
        r matches Some(s) ==> is_uuid_v4(s@),
{
    random_uuid_result(ring_random(16))
}

/// No two hash functions have one name.
proof fn hash_names_differ()
    ensures
        "SHA-1"@ != "SHA-256"@,
        "SHA-1"@ != "SHA-384"@,
        "SHA-1"@ != "SHA-512"@,
        "SHA-256"@ != "SHA-384"@,
        "SHA-256"@ != "SHA-512"@,
        "SHA-384"@ != "SHA-512"@,
{
    reveal_strlit("SHA-1");
    reveal_strlit("SHA-256");
    reveal_strlit("SHA-384");
    reveal_strlit("SHA-512");
    assert("SHA-1"@.len() == 5 && "SHA-256"@.len() == 7 && "SHA-384"@.len() == 7);
    assert("SHA-512"@.len() == 7);
    assert("SHA-256"@[4] == '2' && "SHA-384"@[4] == '3' && "SHA-512"@[4] == '5');
}

/// A hash function is the one that a script names, and there is none for another name or without
/// one; RSA is offered with all of them but SHA-1. The bits of a digest are what the name counts,
/// SHA-1 apart, which has 160.
pub proof fn hash_functions_are_named(s: Seq<char>, name: String)
    ensures
        HashAlgorithm::named(s) == Some(HashAlgorithm::Sha1) <==> s == "SHA-1"@,
        HashAlgorithm::named(s) == Some(HashAlgorithm::Sha256) <==> s == "SHA-256"@,
        HashAlgorithm::named(s) == Some(HashAlgorithm::Sha384) <==> s == "SHA-384"@,
        HashAlgorithm::named(s) == Some(HashAlgorithm::Sha512) <==> s == "SHA-512"@,
        RsaHash::named(s) == Some(RsaHash::Sha256) <==> s == "SHA-256"@,
        RsaHash::named(s) == Some(RsaHash::Sha384) <==> s == "SHA-384"@,
        RsaHash::named(s) == Some(RsaHash::Sha512) <==> s == "SHA-512"@,
        chosen(Some(name)) == HashAlgorithm::named(unicode_uppercase(name@)),
        chosen(None) is None,
        chosen_rsa(Some(name)) == RsaHash::named(unicode_uppercase(name@)),
        chosen_rsa(None) is None,
        HashAlgorithm::Sha1.digest_len() * 8 == 160,
        HashAlgorithm::Sha256.digest_len() * 8 == 256,
        HashAlgorithm::Sha384.digest_len() * 8 == 384,
        HashAlgorithm::Sha512.digest_len() * 8 == 512,
{
    hash_names_differ();
}

/// What is derived depends on whole bytes and on at least one iteration: bits that make no whole
/// byte change nothing, and no iterations are as good as one.
pub proof fn odd_requests_derive_the_same(
    args: usize,
    algorithm: Option<String>,
    password: Option<Vec<u8>>,
    salt: Option<Vec<u8>>,
    iterations: Option<u32>,
    bytes: usize,
    bits: usize,
)
    requires
        bits < 8,
        8 * bytes + bits <= usize::MAX,
    ensures
        derived(args, algorithm, password, salt, iterations, Some((8 * bytes + bits) as usize))
            == derived(args, algorithm, password, salt, iterations, Some((8 * bytes) as usize)),
        derived(args, algorithm, password, salt, Some(0), Some(bits)) == derived(
            args,
            algorithm,
            password,
            salt,
            Some(1),
            Some(bits),
        ),
{
}

/// With all that it needs PBKDF2 derives as many whole bytes as were asked for, from the password,
/// the salt and the iterations that were given; without any of it nothing is derived.
pub proof fn complete_requests_derive(
    algorithm: String,
    alg: HashAlgorithm,
    password: Vec<u8>,
    salt: Vec<u8>,
    iterations: u32,
    bits: usize,
    args: usize,
)
    requires
        chosen(Some(algorithm)) == Some(alg),
        iterations > 0,
    ensures
        args >= 5 ==> derived(
            args,
            Some(algorithm),
            Some(password),
            Some(salt),
            Some(iterations),
            Some(bits),
        ) == Some(pbkdf2_of(alg, iterations, salt@, password@, (bits / 8) as nat)),
        args < 5 ==> derived(
            args,
            Some(algorithm),
            Some(password),
            Some(salt),
            Some(iterations),
            Some(bits),
        ) is None,
        derived(args, None, Some(password), Some(salt), Some(iterations), Some(bits)) is None,
        derived(args, Some(algorithm), None, Some(salt), Some(iterations), Some(bits)) is None,
        derived(args, Some(algorithm), Some(password), None, Some(iterations), Some(bits)) is None,
        derived(args, Some(algorithm), Some(password), Some(salt), None, Some(bits)) is None,
        derived(args, Some(algorithm), Some(password), Some(salt), Some(iterations), None) is None,
        derivable(Some(algorithm), Some(bits)) <==> bits / 8 <= 0xFFFF_FFFF * alg.digest_len(),
        derivable(Some(algorithm), None),
{
}

/// AES-GCM is offered for keys of 128 bits and of 256, and for no other length.
pub proof fn key_sizes_are_known_by_their_length(len: nat)
    ensures
        AesKeySize::of_len(len) == Some(AesKeySize::Bits128) <==> len * 8 == 128,
        AesKeySize::of_len(len) == Some(AesKeySize::Bits256) <==> len * 8 == 256,
        AesKeySize::of_len(len) is Some ==> AesKeySize::of_len(len)->0.key_len() == len,
{
}

/// Bytes are seen as they are, where there are any.
pub proof fn bytes_are_seen_as_they_are(v: Vec<u8>)
    ensures
        bytes_view(Some(v)) == Some(v@),
        bytes_view(None) is None,
{
}

/// A script signs with ECDSA where it has given two arguments, a key and data among them.
pub proof fn signing_needs_a_key_and_data(
    args: usize,
    private_key: Option<Vec<u8>>,
    data: Option<Vec<u8>>,
)
    ensures
        asks_to_sign(args, private_key, data) <==> args >= 2 && private_key is Some && data is Some,
        nonce_len() * 8 == 96,
        tag_len() * 8 == 128,
{
}

} // verus!
