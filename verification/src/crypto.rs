//! Password-based encryption of an account's recovery phrase.
//!
//! A key is derived from the password with Argon2id (random 16-byte
//! salt), the phrase is sealed with AES-256-GCM (random 12-byte nonce),
//! and ciphertext, salt and nonce are returned hex-encoded.  Decryption
//! reverses each step and fails cleanly on malformed input, a wrong
//! password or corrupted data.
//!
//! The key derivation and the cipher live in outside crates; their
//! results are named by the uninterpreted functions below, and every step
//! around them — validation, hex framing, error mapping, the round trip —
//! is verified against those names.

use vstd::prelude::*;

use argon2::PasswordHasher;
use argon2::password_hash::rand_core::RngCore;
use aes_gcm::KeyInit;
use aes_gcm::aead::Aead;

verus! {

use vstd::utf8::{encode_utf8, valid_utf8, encode_utf8_valid_utf8, encode_utf8_decode_utf8};
use vstd::string::StringExecFns;
use crate::hexcode::{hex_valid, hex_bytes_of, hex_of, hex_encode, hex_decode, lemma_hex_round_trip};

/// Failures of the encryption routines.
#[derive(Debug)]
pub enum CryptoError {
    EncryptionFailed(String),
    DecryptionFailed(String),
    KeyDerivationFailed(String),
    InvalidInput(String),
}

impl CryptoError {
    /// A human-readable description: the failing stage and its detail.
    pub fn message(&self) -> (r: String)
        ensures
            r@ == match self {
                CryptoError::EncryptionFailed(m) => "Encryption failed: "@ + m@,
                CryptoError::DecryptionFailed(m) => "Decryption failed: "@ + m@,
                CryptoError::KeyDerivationFailed(m) => "Key derivation failed: "@ + m@,
                CryptoError::InvalidInput(m) => "Invalid input: "@ + m@,
            },
    {
        match self {
            CryptoError::EncryptionFailed(m) => String::from_str("Encryption failed: ").concat(
                m.as_str(),
            ),
            CryptoError::DecryptionFailed(m) => String::from_str("Decryption failed: ").concat(
                m.as_str(),
            ),
            CryptoError::KeyDerivationFailed(m) => String::from_str(
                "Key derivation failed: ",
            ).concat(m.as_str()),
            CryptoError::InvalidInput(m) => String::from_str("Invalid input: ").concat(m.as_str()),
        }
    }
}

/// The 32-byte key Argon2id derives from a password and a salt, with the
/// `argon2` crate's default algorithm, version and parameters.  The result
/// is a function of password and salt alone.
pub uninterp spec fn argon2id_key_of(password: Seq<u8>, salt: Seq<u8>) -> Seq<u8>;

/// The AES-256-GCM ciphertext (with appended tag) of a plaintext under a
/// key and nonce.  A function of its arguments alone.
pub uninterp spec fn aes256gcm_seal_of(key: Seq<u8>, nonce: Seq<u8>, plaintext: Seq<u8>) -> Seq<u8>;

/// The AES-256-GCM decryption of a ciphertext under a key and nonce:
/// `Some` plaintext exactly when the tag authenticates.  A function of its
/// arguments alone.
pub uninterp spec fn aes256gcm_open_of(key: Seq<u8>, nonce: Seq<u8>, ciphertext: Seq<u8>) -> Option<
    Seq<u8>,
>;

/// Relies on the operating system's randomness source (`OsRng` of
/// rand_core, re-exported by the cipher crates): fills a buffer of the
/// requested length.  Nothing is assumed about the values drawn.
#[verifier::external_body]
fn os_random_bytes(n: usize) -> (r: Vec<u8>)
    requires
        n <= 64,
    ensures
        r@.len() == n,
{
    let mut buf = vec![0u8; n];
    aes_gcm::aead::OsRng.fill_bytes(&mut buf);
    buf
}

/// Relies on `argon2::Argon2::hash_password` with the crate's defaults
/// (Argon2id, version 0x13, default parameters, 32-byte output).  For a
/// password shorter than 2^32 bytes and a salt of 8 to 48 bytes the hash
/// succeeds, and its output depends on password and salt alone.
#[verifier::external_body]
fn argon2id_derive(password: &[u8], salt: &[u8]) -> (r: Vec<u8>)
    requires
        password@.len() < 0x1_0000_0000,
        8 <= salt@.len() <= 48,
    ensures
        r@.len() == 32,
        r@ == argon2id_key_of(password@, salt@),
{
    let argon2 = argon2::Argon2::default();
    let salt_string = argon2::password_hash::SaltString::encode_b64(salt).expect(
        "a salt of at most 48 bytes encodes",
    );
    let hash = argon2.hash_password(password, &salt_string).expect(
        "argon2 accepts these input lengths",
    ).hash.expect("argon2 produces an output");
    hash.as_bytes().to_vec()
}

/// Relies on `Aes256Gcm::encrypt` (aes_gcm): AES-256-GCM with a 96-bit
/// nonce; succeeds for any plaintext of at most 2^36 bytes; the result is
/// the ciphertext with the 16-byte tag appended, depends on key, nonce and
/// plaintext alone, and decrypts back to the plaintext under the same key
/// and nonce.
#[verifier::external_body]
fn aes256gcm_seal(key: &[u8], nonce: &[u8], plaintext: &[u8]) -> (r: Vec<u8>)
    requires
        key@.len() == 32,
        nonce@.len() == 12,
        plaintext@.len() <= 0x10_0000_0000,
    ensures
        r@.len() == plaintext@.len() + 16,
        r@ == aes256gcm_seal_of(key@, nonce@, plaintext@),
        aes256gcm_open_of(key@, nonce@, r@) == Some(plaintext@),
{
    let cipher = aes_gcm::Aes256Gcm::new_from_slice(key).expect("the key is 32 bytes");
    let nonce = aes_gcm::Nonce::from_slice(nonce);
    cipher.encrypt(nonce, plaintext).expect("the plaintext is within the AES-GCM bound")
}

/// Relies on `Aes256Gcm::decrypt` (aes_gcm): verifies the GCM tag and
/// returns the plaintext; fails exactly when the tag does not
/// authenticate; the outcome depends on key, nonce and ciphertext alone.
#[verifier::external_body]
fn aes256gcm_open(key: &[u8], nonce: &[u8], ciphertext: &[u8]) -> (r: Option<Vec<u8>>)
    requires
        key@.len() == 32,
        nonce@.len() == 12,
    ensures
        r is Some <==> aes256gcm_open_of(key@, nonce@, ciphertext@) is Some,
        r matches Some(p) ==> aes256gcm_open_of(key@, nonce@, ciphertext@) == Some(p@),
{
    let cipher = aes_gcm::Aes256Gcm::new_from_slice(key).expect("the key is 32 bytes");
    let nonce = aes_gcm::Nonce::from_slice(nonce);
    cipher.decrypt(nonce, ciphertext).ok()
}

/// Relies on `String::from_utf8` (std): returns the string whose UTF-8
/// encoding is exactly the input, and fails exactly when the input is not
/// valid UTF-8.
#[verifier::external_body]
fn string_from_utf8(bytes: Vec<u8>) -> (r: Option<String>)
    ensures
        r is Some <==> valid_utf8(bytes@),
        r matches Some(s) ==> encode_utf8(s@) == bytes@,
{
    String::from_utf8(bytes).ok()
}

/// Derives the 32-byte encryption key from a password and a salt, mapping
/// every underlying refusal (salt length out of range, oversized password)
/// to `KeyDerivationFailed`.
fn derive_key(password: &str, salt: &[u8]) -> (r: Result<Vec<u8>, CryptoError>)
    ensures
        r is Ok <==> (8 <= salt@.len() <= 48 && encode_utf8(password@).len() < 0x1_0000_0000),
        r matches Ok(k) ==> {
            &&& k@ == argon2id_key_of(encode_utf8(password@), salt@)
            &&& k@.len() == 32
        },
        r matches Err(e) ==> e is KeyDerivationFailed,
{
    let pw = password.as_bytes();
    if salt.len() < 8 || salt.len() > 48 {
        return Err(
            CryptoError::KeyDerivationFailed(String::from_str("Failed to encode salt")),
        );
    }
    if pw.len() as u64 >= 0x1_0000_0000u64 {
        return Err(
            CryptoError::KeyDerivationFailed(String::from_str("Failed to hash password")),
        );
    }
    Ok(argon2id_derive(pw, salt))
}

/// The conditions under which decryption succeeds: a non-empty password
/// of fewer than 2^32 UTF-8 bytes, three well-formed hex inputs, a
/// 12-byte nonce, a salt of 8 to 48 bytes, an authenticating ciphertext,
/// and a plaintext that is valid UTF-8.
pub open spec fn decrypt_accepts(
    encrypted: Seq<char>,
    password: Seq<char>,
    salt_hex: Seq<char>,
    nonce_hex: Seq<char>,
) -> bool {
    &&& password.len() > 0
    &&& hex_valid(encrypted)
    &&& hex_valid(salt_hex)
    &&& hex_valid(nonce_hex)
    &&& hex_bytes_of(nonce_hex).len() == 12
    &&& 8 <= hex_bytes_of(salt_hex).len() <= 48
    &&& encode_utf8(password).len() < 0x1_0000_0000
    &&& decrypted_bytes(encrypted, password, salt_hex, nonce_hex) is Some
    &&& valid_utf8(decrypted_bytes(encrypted, password, salt_hex, nonce_hex)->0)
}

/// The plaintext bytes that decryption recovers, when the tag
/// authenticates.
pub open spec fn decrypted_bytes(
    encrypted: Seq<char>,
    password: Seq<char>,
    salt_hex: Seq<char>,
    nonce_hex: Seq<char>,
) -> Option<Seq<u8>> {
    aes256gcm_open_of(
        argon2id_key_of(encode_utf8(password), hex_bytes_of(salt_hex)),
        hex_bytes_of(nonce_hex),
        hex_bytes_of(encrypted),
    )
}

/// Encrypts a mnemonic phrase with a password.
///
/// Returns the hex-encoded ciphertext, salt and nonce.  Succeeds exactly
/// for a non-empty mnemonic (of at most 2^36 UTF-8 bytes) and a non-empty
/// password (of fewer than 2^32 UTF-8 bytes); the outputs decode to a
/// 16-byte salt, a 12-byte nonce, and the sealed mnemonic, which decrypts
/// back to the mnemonic's UTF-8 bytes under the derived key.
pub fn encrypt_mnemonic(mnemonic: &str, password: &str) -> (r: Result<
    (String, String, String),
    CryptoError,
>)
    ensures
        r is Ok <==> {
            &&& mnemonic@.len() > 0
            &&& password@.len() > 0
            &&& encode_utf8(mnemonic@).len() <= 0x10_0000_0000
            &&& encode_utf8(password@).len() < 0x1_0000_0000
        },
        r matches Ok(t) ==> {
            &&& hex_valid(t.0@) && hex_valid(t.1@) && hex_valid(t.2@)
            &&& hex_bytes_of(t.1@).len() == 16
            &&& hex_bytes_of(t.2@).len() == 12
            &&& hex_bytes_of(t.0@) == aes256gcm_seal_of(
                argon2id_key_of(encode_utf8(password@), hex_bytes_of(t.1@)),
                hex_bytes_of(t.2@),
                encode_utf8(mnemonic@),
            )
            &&& decrypted_bytes(t.0@, password@, t.1@, t.2@) == Some(encode_utf8(mnemonic@))
        },
        r matches Err(e) ==> {
            &&& (e is InvalidInput <==> (mnemonic@.len() == 0 || password@.len() == 0))
            &&& (e is KeyDerivationFailed <==> (mnemonic@.len() > 0 && password@.len() > 0
                && encode_utf8(password@).len() >= 0x1_0000_0000))
            &&& (e is EncryptionFailed <==> (mnemonic@.len() > 0 && password@.len() > 0
                && encode_utf8(password@).len() < 0x1_0000_0000 && encode_utf8(mnemonic@).len()
                > 0x10_0000_0000))
        },
{
    if mnemonic.is_empty() {
        return Err(CryptoError::InvalidInput(String::from_str("Mnemonic cannot be empty")));
    }
    if password.is_empty() {
        return Err(CryptoError::InvalidInput(String::from_str("Password cannot be empty")));
    }
    let salt = os_random_bytes(16);
    let key = match derive_key(password, salt.as_slice()) {
        Ok(k) => k,
        Err(e) => {
            return Err(e);
        },
    };
    let plaintext = mnemonic.as_bytes();
    if plaintext.len() as u64 > 0x10_0000_0000u64 {
        return Err(CryptoError::EncryptionFailed(String::from_str("Mnemonic is too long")));
    }
    let nonce = os_random_bytes(12);
    let ciphertext = aes256gcm_seal(key.as_slice(), nonce.as_slice(), plaintext);
    let out = (
        hex_encode(ciphertext.as_slice()),
        hex_encode(salt.as_slice()),
        hex_encode(nonce.as_slice()),
    );
    proof {
        lemma_hex_round_trip(ciphertext@);
        lemma_hex_round_trip(salt@);
        lemma_hex_round_trip(nonce@);
    }
    Ok(out)
}

/// Decrypts a mnemonic phrase from its hex-encoded ciphertext, salt and
/// nonce, with the password.
///
/// Succeeds exactly under [`decrypt_accepts`]; the returned string's
/// UTF-8 bytes are then exactly the recovered plaintext.  Each refusal is
/// reported as in the encryption direction: an empty password as
/// `InvalidInput`, a refused key derivation as `KeyDerivationFailed`, and
/// malformed hex, a bad nonce length, a failed authentication or
/// non-UTF-8 plaintext as `DecryptionFailed`.
pub fn decrypt_mnemonic(
    encrypted_hex: &str,
    password: &str,
    salt_hex: &str,
    nonce_hex: &str,
) -> (r: Result<String, CryptoError>)
    ensures
        r is Ok <==> decrypt_accepts(encrypted_hex@, password@, salt_hex@, nonce_hex@),
        r matches Ok(s) ==> Some(encode_utf8(s@)) == decrypted_bytes(
            encrypted_hex@,
            password@,
            salt_hex@,
            nonce_hex@,
        ),
        r matches Err(e) ==> {
            &&& (e is InvalidInput <==> password@.len() == 0)
            &&& (e is KeyDerivationFailed <==> (password@.len() > 0 && hex_valid(encrypted_hex@)
                && hex_valid(salt_hex@) && hex_valid(nonce_hex@) && hex_bytes_of(nonce_hex@).len()
                == 12 && !(8 <= hex_bytes_of(salt_hex@).len() <= 48 && encode_utf8(
                password@,
            ).len() < 0x1_0000_0000)))
            &&& !(e is EncryptionFailed)
        },
{
    if password.is_empty() {
        return Err(CryptoError::InvalidInput(String::from_str("Password cannot be empty")));
    }
    let encrypted = match hex_decode(encrypted_hex) {
        Some(b) => b,
        None => {
            return Err(CryptoError::DecryptionFailed(String::from_str("Invalid encrypted data")));
        },
    };
    let salt = match hex_decode(salt_hex) {
        Some(b) => b,
        None => {
            return Err(CryptoError::DecryptionFailed(String::from_str("Invalid salt")));
        },
    };
    let nonce_bytes = match hex_decode(nonce_hex) {
        Some(b) => b,
        None => {
            return Err(CryptoError::DecryptionFailed(String::from_str("Invalid nonce")));
        },
    };
    if nonce_bytes.len() != 12 {
        return Err(CryptoError::DecryptionFailed(String::from_str("Invalid nonce length")));
    }
    let key = match derive_key(password, salt.as_slice()) {
        Ok(k) => k,
        Err(e) => {
            return Err(e);
        },
    };
    match aes256gcm_open(key.as_slice(), nonce_bytes.as_slice(), encrypted.as_slice()) {
        Some(plaintext) => match string_from_utf8(plaintext) {
            Some(s) => Ok(s),
            None => Err(CryptoError::DecryptionFailed(String::from_str("Invalid UTF-8"))),
        },
        None => Err(
            CryptoError::DecryptionFailed(
                String::from_str("Decryption failed: Invalid password or corrupted data"),
            ),
        ),
    }
}

/// Law check: decrypting what `encrypt_mnemonic` produced, with the same
/// password, recovers the mnemonic exactly.  Returns the recovered
/// mnemonic, which is proved equal to the original whenever encryption
/// succeeded.
pub fn encrypt_decrypt_round_trip(mnemonic: &str, password: &str) -> (r: Option<String>)
    ensures
        r matches Some(s) ==> s@ == mnemonic@,
        r is Some <==> {
            &&& mnemonic@.len() > 0
            &&& password@.len() > 0
            &&& encode_utf8(mnemonic@).len() <= 0x10_0000_0000
            &&& encode_utf8(password@).len() < 0x1_0000_0000
        },
{
    match encrypt_mnemonic(mnemonic, password) {
        Ok(t) => {
            proof {
                encode_utf8_valid_utf8(mnemonic@);
            }
            match decrypt_mnemonic(t.0.as_str(), password, t.1.as_str(), t.2.as_str()) {
                Ok(s) => {
                    proof {
                        encode_utf8_decode_utf8(s@);
                        encode_utf8_decode_utf8(mnemonic@);
                    }
                    Some(s)
                },
                Err(_) => {
                    // The encryption contract satisfies every decryption
                    // precondition, so this branch is provably dead.
                    proof {
                        assert(false);
                    }
                    None
                },
            }
        },
        Err(_) => None,
    }
}

} // verus!
