use block_modes::BlockMode;
use ddstats_rust::crypto_encoder::{encrypt_and_encode, EncodeError};

fn reference(plain: &str, password: &str, salt: &str, iv: &str) -> String {
    let mut key = [0u8; 16];
    ring::pbkdf2::derive(ring::pbkdf2::PBKDF2_HMAC_SHA1, std::num::NonZeroU32::new(65536).unwrap(),
        salt.as_bytes(), password.as_bytes(), &mut key);
    let cipher = block_modes::Cbc::<aes::Aes128, block_modes::block_padding::Pkcs7>::new_from_slices(&key, iv.as_bytes()).unwrap();
    let mut buffer = [0u8; 1000];
    buffer[..plain.len()].copy_from_slice(plain.as_bytes());
    let c = cipher.encrypt(&mut buffer, plain.len()).unwrap();
    base32::encode(base32::Alphabet::RFC4648 { padding: true }, c)
}

#[test]
fn encrypts_like_the_crates() {
    let iv = "0123456789abcdef";
    let out = encrypt_and_encode("hello".into(), "pw".into(), "salt".into(), iv.into()).unwrap();
    assert_eq!(out, reference("hello", "pw", "salt", iv));
    assert_ne!(out, "hello");
    // one 16-byte block, base32 with padding: 32 characters
    assert_eq!(out.len(), 32);
    let longer = "x".repeat(16);
    assert_eq!(encrypt_and_encode(longer.clone(), "pw".into(), "salt".into(), iv.into()).unwrap().len(), 56);
}

#[test]
fn encode_errors() {
    assert_eq!(encrypt_and_encode("hello".into(), "pw".into(), "salt".into(), "short".into()), Err(EncodeError::InvalidIvLength));
    assert_eq!(encrypt_and_encode("x".repeat(2000), "pw".into(), "salt".into(), "short".into()), Err(EncodeError::InvalidIvLength));
    assert_eq!(encrypt_and_encode("x".repeat(992), "pw".into(), "salt".into(), "0123456789abcdef".into()), Err(EncodeError::MessageTooLong));
    assert!(encrypt_and_encode("x".repeat(991), "pw".into(), "salt".into(), "0123456789abcdef".into()).is_ok());
}
