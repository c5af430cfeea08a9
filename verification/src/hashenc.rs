//! Key and IV derivation, and the encryption of a payload: AES-256 in CBC
//! mode with PKCS#7 padding, under a key taken from a pre-shared secret.

use crate::encoding::{
    base64_encode, base64_text, hex_bytes, hex_decode, hex_encode, hex_text, lemma_base64_len,
    lemma_hex_round_trip,
};
use vstd::prelude::*;
use vstd::string::*;
use vstd::utf8::*;

verus! {

/// The SHA-512 digest of `data`.
pub uninterp spec fn sha512(data: Seq<u8>) -> Seq<u8>;

/// The AES-256-CBC ciphertext of `plaintext` after PKCS#7 padding.
pub uninterp spec fn aes256_cbc_encrypt(key: Seq<u8>, iv: Seq<u8>, plaintext: Seq<u8>) -> Seq<u8>;

/// What AES-256-CBC decryption and the removal of PKCS#7 padding leave of
/// `ciphertext`, or nothing where the padding found is not valid.
pub uninterp spec fn aes256_cbc_decrypt(key: Seq<u8>, iv: Seq<u8>, ciphertext: Seq<u8>) -> Option<
    Seq<u8>,
>;

/// Why a payload could not be decrypted.
#[derive(Debug, Clone, Copy, PartialEq, Eq)]
pub enum CryptoError {
    /// The ciphertext is not an even number of hexadecimal digits.
    MalformedHex,
    /// The ciphertext is no whole number of blocks, or the padding found
    /// after decryption is not valid.
    InvalidPadding,
    /// The decrypted bytes are not UTF-8 text.
    InvalidText,
    /// The plaintext is too long for its ciphertext to be held in memory.
    EncryptionFailed,
}

/// A ciphertext with the IV it was made under, as they go over the wire.
#[derive(Debug)]
pub struct EncryptedPayload {
    pub ciphertext_hex: String,
    pub iv_base64: String,
}

/// The AES-256 key of a secret: the first 32 bytes of the SHA-512 digest of
/// its UTF-8 bytes.
pub open spec fn key_of(secret: Seq<char>) -> Seq<u8> {
    sha512(encode_utf8(secret)).subrange(0, 32)
}

/// The IV that 16 random bytes are whitened to: the first 16 bytes of their
/// SHA-512 digest.
pub open spec fn iv_of(seed: Seq<u8>) -> Seq<u8> {
    sha512(seed).subrange(0, 16)
}

/// Whether a text is short enough for its hexadecimal ciphertext to be held
/// in memory.
pub open spec fn fits(data: Seq<char>) -> bool {
    2 * (encode_utf8(data).len() + 16) <= isize::MAX
}

/// The hexadecimal ciphertext of `data` under `secret` and `iv`.
pub open spec fn encrypted(data: Seq<char>, secret: Seq<char>, iv: Seq<u8>) -> Seq<char> {
    hex_text(aes256_cbc_encrypt(key_of(secret), iv, encode_utf8(data)))
}

/// The text that a decrypted plaintext holds, if it is UTF-8.
pub open spec fn text_of(plaintext: Seq<u8>) -> Result<Seq<char>, CryptoError> {
    if valid_utf8(plaintext) {
        Ok(decode_utf8(plaintext))
    } else {
        Err(CryptoError::InvalidText)
    }
}

/// What decrypting the hexadecimal ciphertext `hex` under `secret` and `iv`
/// gives: the plaintext, or the first step that failed.
pub open spec fn decrypted(hex: Seq<char>, secret: Seq<char>, iv: Seq<u8>) -> Result<
    Seq<char>,
    CryptoError,
> {
    match hex_bytes(hex) {
        None => Err(CryptoError::MalformedHex),
        Some(ciphertext) => match aes256_cbc_decrypt(key_of(secret), iv, ciphertext) {
            None => Err(CryptoError::InvalidPadding),
            Some(plaintext) => text_of(plaintext),
        },
    }
}

/// Fills a block from `rand::thread_rng()`. Nothing is known of the bytes.
#[verifier::external_body]
fn random_block() -> (block: [u8; 16]) {
    let mut block = [0u8; 16];
    rand::RngCore::fill_bytes(&mut rand::thread_rng(), &mut block);
    block
}

/// Calls `Sha512::digest` of sha2: the digest of `data`, which has 64 bytes.
#[verifier::external_body]
fn sha512_digest(data: &[u8]) -> (digest: Vec<u8>)
    ensures
        digest@ == sha512(data@),
        digest@.len() == 64,
{
    <sha2::Sha512 as sha2::Digest>::digest(data).to_vec()
}

/// Calls `encrypt_padded_vec_mut` of a `cbc::Encryptor<aes::Aes256>` with
/// PKCS#7 padding. The ciphertext is one block longer than the whole blocks
/// of the plaintext, and decryption under the same key and IV gives the
/// plaintext back.
#[verifier::external_body]
fn cbc_encrypt(key: &[u8; 32], iv: &[u8; 16], plaintext: &[u8]) -> (ciphertext: Vec<u8>)
    requires
        plaintext@.len() + 16 <= isize::MAX,
    ensures
        ciphertext@ == aes256_cbc_encrypt(key@, iv@, plaintext@),
        ciphertext@.len() == 16 * (plaintext@.len() / 16 + 1),
        aes256_cbc_decrypt(key@, iv@, ciphertext@) == Some(plaintext@),
{
    let cipher: cbc::Encryptor<aes::Aes256> = cbc::cipher::KeyIvInit::new(key.into(), iv.into());
    cbc::cipher::BlockEncryptMut::encrypt_padded_vec_mut::<cbc::cipher::block_padding::Pkcs7>(
        cipher,
        plaintext,
    )
}

/// Calls `decrypt_padded_vec_mut` of a `cbc::Decryptor<aes::Aes256>` with
/// PKCS#7 padding. It fails on a ciphertext that is no whole number of
/// blocks.
#[verifier::external_body]
fn cbc_decrypt(key: &[u8; 32], iv: &[u8; 16], ciphertext: &[u8]) -> (plaintext: Option<Vec<u8>>)
    ensures
        match plaintext {
            Some(p) => aes256_cbc_decrypt(key@, iv@, ciphertext@) == Some(p@),
            None => aes256_cbc_decrypt(key@, iv@, ciphertext@) is None,
        },
        ciphertext@.len() % 16 != 0 ==> plaintext is None,
{
    let cipher: cbc::Decryptor<aes::Aes256> = cbc::cipher::KeyIvInit::new(key.into(), iv.into());
    cbc::cipher::BlockDecryptMut::decrypt_padded_vec_mut::<cbc::cipher::block_padding::Pkcs7>(
        cipher,
        ciphertext,
    ).ok()
}

/// Calls `String::from_utf8`: the text that the bytes encode, or nothing
/// where they are not valid UTF-8.
#[verifier::external_body]
fn string_from_utf8(bytes: Vec<u8>) -> (text: Option<String>)
    ensures
        match text {
            Some(t) => valid_utf8(bytes@) && t@ == decode_utf8(bytes@),
            None => !valid_utf8(bytes@),
        },
{
    String::from_utf8(bytes).ok()
}

/// The first `N` bytes of a digest.
pub fn leading_bytes<const N: usize>(digest: &[u8]) -> (bytes: [u8; N])
    requires
        digest@.len() >= N,
    ensures
        bytes@ == digest@.subrange(0, N as int),
{
    let mut bytes = [0u8; N];
    let mut i: usize = 0;
    while i < N
        invariant
            i <= N,
            digest@.len() >= N,
            forall|j: int| 0 <= j < i ==> bytes@[j] == digest@[j],
        decreases N - i,
    {
        bytes[i] = digest[i];
        i = i + 1;
    }
    assert(bytes@ =~= digest@.subrange(0, N as int));
    bytes
}

/// The first 32 bytes of a digest, as a key.
pub fn key_from_digest(digest: &[u8]) -> (key: [u8; 32])
    requires
        digest@.len() >= 32,
    ensures
        key@ == digest@.subrange(0, 32),
{
    leading_bytes::<32>(digest)
}

/// The first 16 bytes of a digest, as an IV.
pub fn iv_from_digest(digest: &[u8]) -> (iv: [u8; 16])
    requires
        digest@.len() >= 16,
    ensures
        iv@ == digest@.subrange(0, 16),
{
    leading_bytes::<16>(digest)
}

/// The AES-256 key that a pre-shared secret stands for.
pub fn derive_key(secret: &str) -> (key: [u8; 32])
    ensures
        key@ == key_of(secret@),
{
    let digest = sha512_digest(secret.as_bytes());
    key_from_digest(digest.as_slice())
}

/// The IV that a block of random bytes is whitened to.
pub fn whiten_iv(seed: [u8; 16]) -> (iv: [u8; 16])
    ensures
        iv@ == iv_of(seed@),
{
    let digest = sha512_digest(seed.as_slice());
    iv_from_digest(digest.as_slice())
}

/// A fresh IV: 16 random bytes, whitened. It always succeeds.
pub fn generate_rand_iv() -> (r: Result<[u8; 16], CryptoError>)
    ensures
        r is Ok,
        exists|seed: Seq<u8>| seed.len() == 16 && r->Ok_0@ == #[trigger] iv_of(seed),
{
    let seed = random_block();
    let iv = whiten_iv(seed);
    assert(seed@.len() == 16 && iv@ == iv_of(seed@));
    Ok(iv)
}

/// The IV in base64, as it goes over the wire. It always succeeds.
pub fn generate_base64_iv(iv: [u8; 16]) -> (r: Result<String, CryptoError>)
    ensures
        r is Ok,
        r->Ok_0@ == base64_text(iv@),
        r->Ok_0@.len() == 24,
{
    proof {
        lemma_base64_len(iv@);
    }
    Ok(base64_encode(iv.as_slice()))
}

/// Decrypting what was encrypted gives the text back, for every text,
/// secret and IV, provided the cipher undoes itself on that input.
pub proof fn lemma_decrypt_inverts_encrypt(data: Seq<char>, secret: Seq<char>, iv: Seq<u8>)
    requires
        aes256_cbc_decrypt(
            key_of(secret),
            iv,
            aes256_cbc_encrypt(key_of(secret), iv, encode_utf8(data)),
        ) == Some(encode_utf8(data)),
    ensures
        decrypted(encrypted(data, secret, iv), secret, iv) == Ok::<Seq<char>, CryptoError>(data),
{
    let ciphertext = aes256_cbc_encrypt(key_of(secret), iv, encode_utf8(data));
    lemma_hex_round_trip(ciphertext);
    encode_utf8_valid_utf8(data);
    encode_utf8_decode_utf8(data);
}

/// Encrypts `data` under the key of `key_string` and the given IV, and
/// returns the ciphertext in hexadecimal. It fails only on a text that is
/// too long, and `decrypt_payload` turns the result back into `data`.
pub fn encrypt_payload(data: &str, key_string: &str, iv: [u8; 16]) -> (r: Result<
    String,
    CryptoError,
>)
    ensures
        fits(data@) ==> r is Ok && r->Ok_0@ == encrypted(data@, key_string@, iv@),
        fits(data@) ==> decrypted(r->Ok_0@, key_string@, iv@) == Ok::<Seq<char>, CryptoError>(
            data@,
        ),
        !fits(data@) ==> r == Err::<String, CryptoError>(CryptoError::EncryptionFailed),
{
    let plaintext = data.as_bytes();
    if plaintext.len() > (isize::MAX as usize) / 2 - 16 {
        return Err(CryptoError::EncryptionFailed);
    }
    let key = derive_key(key_string);
    let ciphertext = cbc_encrypt(&key, &iv, plaintext);
    proof {
        lemma_decrypt_inverts_encrypt(data@, key_string@, iv@);
    }
    Ok(hex_encode(ciphertext.as_slice()))
}

/// Decrypts a hexadecimal ciphertext under the key of `key_string` and the
/// given IV. It fails where the text is not hexadecimal, where the padding
/// found after decryption is not valid, and where the plaintext is not
/// UTF-8.
pub fn decrypt_payload(encrypted_hex: &str, key_string: &str, iv: [u8; 16]) -> (r: Result<
    String,
    CryptoError,
>)
    ensures
        match r {
            Ok(text) => decrypted(encrypted_hex@, key_string@, iv@) == Ok::<
                Seq<char>,
                CryptoError,
            >(text@),
            Err(e) => decrypted(encrypted_hex@, key_string@, iv@) == Err::<
                Seq<char>,
                CryptoError,
            >(e),
        },
{
    let key = derive_key(key_string);
    let ciphertext = match hex_decode(encrypted_hex) {
        Some(bytes) => bytes,
        None => {
            return Err(CryptoError::MalformedHex);
        },
    };
    let plaintext = match cbc_decrypt(&key, &iv, ciphertext.as_slice()) {
        Some(bytes) => bytes,
        None => {
            return Err(CryptoError::InvalidPadding);
        },
    };
    match string_from_utf8(plaintext) {
        Some(text) => Ok(text),
        None => Err(CryptoError::InvalidText),
    }
}

impl CryptoError {
    /// The message of each failure.
    pub open spec fn message_text(self) -> Seq<char> {
        match self {
            CryptoError::MalformedHex => "Failed to decode hex string"@,
            CryptoError::InvalidPadding => "Decryption failed"@,
            CryptoError::InvalidText => "Failed to convert decrypted data to string"@,
            CryptoError::EncryptionFailed => "Encryption failed"@,
        }
    }

    /// The message of the failure.
    pub fn message(&self) -> (r: String)
        ensures
            r@ == self.message_text(),
    {
        match self {
            CryptoError::MalformedHex => String::from_str("Failed to decode hex string"),
            CryptoError::InvalidPadding => String::from_str("Decryption failed"),
            CryptoError::InvalidText => String::from_str(
                "Failed to convert decrypted data to string",
            ),
            CryptoError::EncryptionFailed => String::from_str("Encryption failed"),
        }
    }
}

impl EncryptedPayload {
    /// Whether this is `data` encrypted under `secret` and `iv`, with the IV
    /// beside it.
    pub open spec fn holds(&self, data: Seq<char>, secret: Seq<char>, iv: Seq<u8>) -> bool {
        &&& self.ciphertext_hex@ == encrypted(data, secret, iv)
        &&& self.iv_base64@ == base64_text(iv)
    }

    /// Encrypts `data` under the key of `secret` and the given IV, and puts
    /// the IV beside the ciphertext. It fails only on a text that is too
    /// long.
    pub fn seal(data: &str, secret: &str, iv: [u8; 16]) -> (r: Result<
        EncryptedPayload,
        CryptoError,
    >)
        ensures
            fits(data@) ==> r is Ok && r->Ok_0.holds(data@, secret@, iv@),
            !fits(data@) ==> r == Err::<EncryptedPayload, CryptoError>(
                CryptoError::EncryptionFailed,
            ),
    {
        let ciphertext_hex = match encrypt_payload(data, secret, iv) {
            Ok(hex) => hex,
            Err(error) => {
                return Err(error);
            },
        };
        let iv_base64 = match generate_base64_iv(iv) {
            Ok(text) => text,
            Err(error) => {
                return Err(error);
            },
        };
        Ok(EncryptedPayload { ciphertext_hex, iv_base64 })
    }
}

} // verus!
