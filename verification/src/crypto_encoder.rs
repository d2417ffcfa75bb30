//! Encryption of the custom leaderboard's validation text: a key derived
//! from password and salt, AES-128 in CBC mode with PKCS#7 padding in a
//! buffer of fixed size, and base32 of the result.
use vstd::prelude::*;
use vstd::string::*;
use block_modes::BlockMode;

verus! {

/// PBKDF2 iterations of the key derivation.
pub const PBKDF2_ITERATIONS: u32 = 65536;

/// The size of the buffer the message is encrypted in.
pub const CIPHER_BUFFER: usize = 1000;

/// Why a text could not be encrypted.
#[derive(Clone, Copy, Debug, PartialEq, Eq, Structural)]
pub enum EncodeError {
    /// The IV is not one block (16 bytes) long.
    InvalidIvLength,
    /// The padded message does not fit the buffer.
    MessageTooLong,
}

/// The 16-byte key that PBKDF2-HMAC-SHA1 derives from a salt and a secret
/// in `iterations` rounds.
pub uninterp spec fn pbkdf2_sha1_key(iterations: u32, salt: Seq<u8>, secret: Seq<u8>) -> Seq<u8>;

/// `ring::pbkdf2::derive` with `PBKDF2_HMAC_SHA1` into a 16-byte output:
/// the result is named, not stated.
#[verifier::external_body]
fn derive_key(iterations: u32, salt: &[u8], secret: &[u8]) -> (r: [u8; 16])
    requires
        iterations > 0,
    ensures
        r@ == pbkdf2_sha1_key(iterations, salt@, secret@),
{
    let mut out = [0u8; 16];
    let n = std::num::NonZeroU32::new(iterations).unwrap();
    ring::pbkdf2::derive(ring::pbkdf2::PBKDF2_HMAC_SHA1, n, salt, secret, &mut out);
    out
}

/// The ciphertext of AES-128-CBC with PKCS#7 padding for a key, an IV and
/// a message.
pub uninterp spec fn aes128_cbc_pkcs7(key: Seq<u8>, iv: Seq<u8>, plain: Seq<u8>) -> Seq<u8>;

/// The length of a message padded to whole 16-byte blocks (PKCS#7 always
/// adds at least one byte).
pub open spec fn padded_len(n: int) -> int {
    16 * (n / 16) + 16
}

/// `Cbc::<Aes128, Pkcs7>::new_from_slices(key, iv)`, then `encrypt` of the
/// message copied into a zeroed buffer of `capacity` bytes. As the sources
/// of block-modes and block-padding show, creation fails exactly when the
/// IV is not 16 bytes long, encryption fails exactly when the padded
/// message does not fit, and the ciphertext is as long as the padded
/// message; the ciphertext itself is named, not stated.
#[verifier::external_body]
fn cbc_encrypt(key: &[u8; 16], iv: &[u8], plain: &[u8], capacity: usize) -> (r: Option<Vec<u8>>)
    requires
        plain@.len() <= capacity,
    ensures
        r is None <==> (iv@.len() != 16 || padded_len(plain@.len() as int) > capacity),
        r matches Some(c) ==> c@ == aes128_cbc_pkcs7(key@, iv@, plain@)
            && c@.len() == padded_len(plain@.len() as int),
{
    let cipher = match block_modes::Cbc::<aes::Aes128, block_modes::block_padding::Pkcs7>::new_from_slices(key, iv) {
        Ok(c) => c,
        Err(_) => return None,
    };
    let mut buffer = vec![0u8; capacity];
    buffer[..plain.len()].copy_from_slice(plain);
    cipher.encrypt(&mut buffer, plain.len()).ok().map(|c| c.to_vec())
}

/// The RFC 4648 base32 text, with padding, of some bytes.
pub uninterp spec fn base32_rfc4648(data: Seq<u8>) -> Seq<char>;

/// `base32::encode(Alphabet::RFC4648 { padding: true }, data)`: eight
/// characters for every started group of five bytes (as its source shows);
/// the text itself is named, not stated.
#[verifier::external_body]
fn base32_encode(data: &[u8]) -> (r: String)
    ensures
        r@ == base32_rfc4648(data@),
        r@.len() == (data@.len() + 4) / 5 * 8,
{
    base32::encode(base32::Alphabet::RFC4648 { padding: true }, data)
}

/// The UTF-8 bytes of a text.
pub open spec fn utf8_of(s: Seq<char>) -> Seq<u8> {
    vstd::utf8::encode_utf8(s)
}

/// The encrypted and encoded text: base32 of the AES ciphertext of the
/// text under the key derived from password and salt.
pub open spec fn encoded_text(plain: Seq<char>, password: Seq<char>, salt: Seq<char>, iv: Seq<char>) -> Seq<char> {
    base32_rfc4648(aes128_cbc_pkcs7(
        pbkdf2_sha1_key(PBKDF2_ITERATIONS, utf8_of(salt), utf8_of(password)),
        utf8_of(iv),
        utf8_of(plain),
    ))
}

/// Encrypts and encodes a text (all four arguments as UTF-8). Fails when
/// the IV is not 16 bytes long, or when the padded text exceeds the
/// 1000-byte buffer; a text over 1000 bytes is not taken at all.
pub fn encrypt_and_encode(plain: String, password: String, salt: String, iv: String) -> (r: Result<String, EncodeError>)
    requires
        utf8_of(iv@).len() == 16 ==> utf8_of(plain@).len() <= CIPHER_BUFFER,
    ensures
        utf8_of(iv@).len() != 16 ==> r == Err::<String, EncodeError>(EncodeError::InvalidIvLength),
        utf8_of(iv@).len() == 16 && padded_len(utf8_of(plain@).len() as int) > CIPHER_BUFFER
            ==> r == Err::<String, EncodeError>(EncodeError::MessageTooLong),
        utf8_of(iv@).len() == 16 && padded_len(utf8_of(plain@).len() as int) <= CIPHER_BUFFER
            ==> (r matches Ok(s) && s@ == encoded_text(plain@, password@, salt@, iv@)),
{
    let iv_bytes = iv.as_str().as_bytes_vec();
    if iv_bytes.len() != 16 {
        return Err(EncodeError::InvalidIvLength);
    }
    let salt_bytes = salt.as_str().as_bytes_vec();
    let password_bytes = password.as_str().as_bytes_vec();
    let plain_bytes = plain.as_str().as_bytes_vec();
    let key = derive_key(PBKDF2_ITERATIONS, salt_bytes.as_slice(), password_bytes.as_slice());
    match cbc_encrypt(&key, iv_bytes.as_slice(), plain_bytes.as_slice(), CIPHER_BUFFER) {
        Some(cipher) => Ok(base32_encode(cipher.as_slice())),
        None => Err(EncodeError::MessageTooLong),
    }
}

} // verus!
