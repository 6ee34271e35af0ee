use chacha20poly1305::aead::{Aead, NewAead};
use keybear_core::crypto::json::{EncryptedJson, ParseError};
use keybear_core::crypto::{
    decode_plaintext, decrypt, decrypt_bytes, encrypt, encrypt_bytes, encrypt_encoded, key_array,
    payload_from_parsed, DecryptionError, EncryptionError,
};
use rand_core::OsRng;
use serde_json::{Number, Value};
use x25519_dalek::{EphemeralSecret, PublicKey, SharedSecret, StaticSecret};

fn test_object() -> Value {
    let mut obj = serde_json::Map::new();
    obj.insert("string".to_string(), Value::String("HI".to_string()));
    obj.insert("int".to_string(), Value::Number(Number::from(1234i64)));
    obj.insert(
        "vec".to_string(),
        Value::Array(vec![
            Value::String("Hi!".to_string()),
            Value::String("there".to_string()),
        ]),
    );
    Value::Object(obj)
}

fn fixed_secret(seed: u8) -> SharedSecret {
    let secret = StaticSecret::from([seed; 32]);
    let peer = PublicKey::from(&StaticSecret::from([seed.wrapping_add(1); 32]));
    secret.diffie_hellman(&peer)
}

#[test]
fn encrypt_decrypt() {
    // Generate a new shared key
    let alice_secret = EphemeralSecret::new(OsRng);
    let bob_secret = EphemeralSecret::new(OsRng);
    let bob_public = PublicKey::from(&bob_secret);
    let shared_secret = alice_secret.diffie_hellman(&bob_public);

    let obj = test_object();

    // Create a random nonce
    let nonce = b"abcdefghijkl";

    // Encrypt the object
    let cipher_bytes = encrypt(&shared_secret, nonce, &obj).unwrap();

    // Decrypt the encrypted string
    let decrypted = decrypt(&shared_secret, nonce, &cipher_bytes).unwrap();

    assert_eq!(obj, decrypted);
}

#[test]
fn both_sides_derive_the_same_secret_and_read_each_other() {
    let alice_secret = EphemeralSecret::new(OsRng);
    let alice_public = PublicKey::from(&alice_secret);
    let bob_secret = EphemeralSecret::new(OsRng);
    let bob_public = PublicKey::from(&bob_secret);
    let alice_shared = alice_secret.diffie_hellman(&bob_public);
    let bob_shared = bob_secret.diffie_hellman(&alice_public);
    assert_eq!(alice_shared.as_bytes(), bob_shared.as_bytes());

    let obj = test_object();
    let nonce = b"abcdefghijkl";
    let cipher_bytes = encrypt(&alice_shared, nonce, &obj).unwrap();
    assert_eq!(decrypt(&bob_shared, nonce, &cipher_bytes), Ok(obj));
}

#[test]
fn ciphertext_is_the_sealed_json_text() {
    let shared = fixed_secret(7);
    let nonce = b"abcdefghijkl";
    let obj = test_object();
    let text = serde_json::to_vec(&obj).unwrap();
    assert_eq!(
        text,
        b"{\"int\":1234,\"string\":\"HI\",\"vec\":[\"Hi!\",\"there\"]}".to_vec()
    );

    let cipher_bytes = encrypt(&shared, nonce, &obj).unwrap();
    assert_eq!(cipher_bytes.len(), text.len() + 16);
    assert_eq!(encrypt_bytes(&shared, nonce, &text), Ok(cipher_bytes.clone()));

    #[allow(deprecated)]
    let cipher = chacha20poly1305::ChaCha20Poly1305::new(chacha20poly1305::Key::from_slice(
        shared.as_bytes(),
    ));
    #[allow(deprecated)]
    let direct = cipher
        .encrypt(chacha20poly1305::Nonce::from_slice(nonce), text.as_slice())
        .unwrap();
    assert_eq!(cipher_bytes, direct);
}

#[test]
fn bytes_round_trip() {
    let shared = fixed_secret(3);
    let nonce = [9u8; 12];
    let plaintext = b"any bytes at all, JSON or not".to_vec();
    let cipher_bytes = encrypt_bytes(&shared, &nonce, &plaintext).unwrap();
    assert_eq!(cipher_bytes.len(), plaintext.len() + 16);
    assert_ne!(&cipher_bytes[..plaintext.len()], plaintext.as_slice());
    assert_eq!(decrypt_bytes(&shared, &nonce, &cipher_bytes), Ok(plaintext));
}

#[test]
fn empty_plaintext_round_trip() {
    let shared = fixed_secret(4);
    let nonce = [0u8; 12];
    let cipher_bytes = encrypt_bytes(&shared, &nonce, &[]).unwrap();
    assert_eq!(cipher_bytes.len(), 16);
    assert_eq!(decrypt_bytes(&shared, &nonce, &cipher_bytes), Ok(Vec::new()));
}

#[test]
fn encryption_is_deterministic() {
    let shared = fixed_secret(5);
    let nonce = b"abcdefghijkl";
    let obj = test_object();
    assert_eq!(encrypt(&shared, nonce, &obj), encrypt(&shared, nonce, &obj));
}

#[test]
fn wrong_key_fails_authentication() {
    let shared = fixed_secret(10);
    let other = fixed_secret(20);
    assert_ne!(shared.as_bytes(), other.as_bytes());
    let nonce = b"abcdefghijkl";
    let cipher_bytes = encrypt(&shared, nonce, &test_object()).unwrap();
    assert_eq!(
        decrypt(&other, nonce, &cipher_bytes),
        Err(DecryptionError::AuthenticationFailed)
    );
    assert_eq!(
        decrypt_bytes(&other, nonce, &cipher_bytes),
        Err(DecryptionError::AuthenticationFailed)
    );
}

#[test]
fn wrong_nonce_fails_authentication() {
    let shared = fixed_secret(10);
    let cipher_bytes = encrypt(&shared, b"abcdefghijkl", &test_object()).unwrap();
    assert_eq!(
        decrypt(&shared, b"abcdefghijkm", &cipher_bytes),
        Err(DecryptionError::AuthenticationFailed)
    );
    assert_eq!(
        decrypt(&shared, &[0u8; 12], &cipher_bytes),
        Err(DecryptionError::AuthenticationFailed)
    );
}

#[test]
fn every_flipped_bit_fails_authentication() {
    let shared = fixed_secret(11);
    let nonce = b"abcdefghijkl";
    let cipher_bytes = encrypt(&shared, nonce, &test_object()).unwrap();
    let mut at: usize = 0;
    while at < cipher_bytes.len() {
        let mut bit: u32 = 0;
        while bit < 8 {
            let mut altered = cipher_bytes.clone();
            altered[at] ^= 1u8 << bit;
            assert_eq!(
                decrypt(&shared, nonce, &altered),
                Err(DecryptionError::AuthenticationFailed)
            );
            bit += 1;
        }
        at += 1;
    }
}

#[test]
fn truncated_ciphertext_fails_authentication() {
    let shared = fixed_secret(12);
    let nonce = b"abcdefghijkl";
    let cipher_bytes = encrypt(&shared, nonce, &test_object()).unwrap();
    assert_eq!(
        decrypt(&shared, nonce, &cipher_bytes[..15]),
        Err(DecryptionError::AuthenticationFailed)
    );
    assert_eq!(
        decrypt(&shared, nonce, &cipher_bytes[..cipher_bytes.len() - 1]),
        Err(DecryptionError::AuthenticationFailed)
    );
    assert_eq!(
        decrypt(&shared, nonce, &[]),
        Err(DecryptionError::AuthenticationFailed)
    );
}

#[test]
fn authentic_text_that_is_not_json_is_malformed() {
    let shared = fixed_secret(13);
    let nonce = b"abcdefghijkl";
    let cipher_bytes = encrypt_bytes(&shared, nonce, b"{\"int\":").unwrap();
    assert_eq!(
        decrypt(&shared, nonce, &cipher_bytes),
        Err(DecryptionError::MalformedPayload)
    );
    assert_eq!(
        decrypt_bytes(&shared, nonce, &cipher_bytes),
        Ok(b"{\"int\":".to_vec())
    );
}

#[test]
fn plaintext_is_read_as_json() {
    assert_eq!(
        decode_plaintext(b"{\"string\":\"HI\",\"int\":1234,\"vec\":[\"Hi!\",\"there\"]}"),
        Ok(test_object())
    );
    assert_eq!(decode_plaintext(b"null"), Ok(Value::Null));
    assert_eq!(
        decode_plaintext(b"not json"),
        Err(DecryptionError::MalformedPayload)
    );
    assert_eq!(decode_plaintext(b""), Err(DecryptionError::MalformedPayload));
}

#[test]
fn parse_outcome_decides_the_payload() {
    assert_eq!(
        payload_from_parsed(serde_json::from_slice(b"[1,2]")),
        Ok(Value::Array(vec![
            Value::Number(Number::from(1u64)),
            Value::Number(Number::from(2u64)),
        ]))
    );
    assert_eq!(
        payload_from_parsed::<Value>(serde_json::from_slice(b"[1,2")),
        Err(DecryptionError::MalformedPayload)
    );
    assert_eq!(
        payload_from_parsed::<i64>(serde_json::from_slice(b"1234")),
        Ok(1234i64)
    );
    assert_eq!(
        payload_from_parsed::<i64>(serde_json::from_slice(b"\"HI\"")),
        Err(DecryptionError::MalformedPayload)
    );
}

#[test]
fn encryption_errors_differ() {
    assert_ne!(EncryptionError::Encoding, EncryptionError::Cipher);
    assert_ne!(
        DecryptionError::AuthenticationFailed,
        DecryptionError::MalformedPayload
    );
}

#[test]
fn key_array_takes_exactly_32_bytes() {
    let mut bytes: Vec<u8> = Vec::new();
    let mut i: u8 = 0;
    while i < 32 {
        bytes.push(i);
        i += 1;
    }
    let array = key_array(&bytes).unwrap();
    assert_eq!(array.to_vec(), bytes);
    assert_eq!(key_array(&bytes[..31]), None);
    bytes.push(32);
    assert_eq!(key_array(&bytes), None);
    assert_eq!(key_array(&[]), None);
}

#[test]
fn wrapper_holds_what_it_was_given() {
    let payload = EncryptedJson::new(test_object());
    assert_eq!(*payload.get(), test_object());
    assert_eq!(payload.into_inner(), test_object());
}

#[test]
fn wrapper_gives_write_access() {
    let mut payload = EncryptedJson::new(5i64);
    *payload.get_mut() += 2;
    assert_eq!(*payload.get(), 7i64);
    assert_eq!(payload.into_inner(), 7i64);
}

#[test]
fn wrapper_is_shown_without_its_payload() {
    let payload = EncryptedJson::new("the secret password".to_string());
    assert_eq!(payload.describe(), "Encrypted JSON");
    assert!(!payload.describe().contains("secret"));
}

#[test]
fn wrapper_parses_json_text() {
    let payload =
        EncryptedJson::from_str("{\"string\":\"HI\",\"int\":1234,\"vec\":[\"Hi!\",\"there\"]}");
    match payload {
        Ok(p) => assert_eq!(p.into_inner(), test_object()),
        Err(_) => panic!("valid JSON was refused"),
    }
}

#[test]
fn wrapper_refuses_malformed_text() {
    assert!(matches!(
        EncryptedJson::from_str("{\"string\":"),
        Err(ParseError::InvalidJson)
    ));
    assert!(matches!(
        EncryptedJson::from_str(""),
        Err(ParseError::InvalidJson)
    ));
    assert!(matches!(
        EncryptedJson::<Value>::from_parsed(serde_json::from_str("]")),
        Err(ParseError::InvalidJson)
    ));
    match EncryptedJson::<Value>::from_parsed(serde_json::from_str("true")) {
        Ok(p) => assert_eq!(p.into_inner(), Value::Bool(true)),
        Err(_) => panic!("valid JSON was refused"),
    }
    match EncryptedJson::<Vec<u8>>::from_parsed(serde_json::from_str("[1,2,3]")) {
        Ok(p) => assert_eq!(p.into_inner(), vec![1u8, 2u8, 3u8]),
        Err(_) => panic!("valid JSON was refused"),
    }
    assert!(matches!(
        EncryptedJson::<Vec<u8>>::from_parsed(serde_json::from_str("[1,2,300]")),
        Err(ParseError::InvalidJson)
    ));
}

#[test]
fn wrapper_is_transparent() {
    let mut payload = EncryptedJson::new("abc".to_string());
    assert_eq!(payload.len(), 3);
    payload.push('d');
    assert_eq!(*payload, "abcd");
    assert_eq!(payload.into_inner(), "abcd");
}

#[test]
fn value_nested_too_deep_does_not_read_back() {
    let mut value = Value::Null;
    let mut depth: u32 = 0;
    while depth < 200 {
        value = Value::Array(vec![value]);
        depth += 1;
    }
    let shared = fixed_secret(14);
    let nonce = b"abcdefghijkl";
    let cipher_bytes = encrypt(&shared, nonce, &value).unwrap();
    assert_eq!(cipher_bytes.len(), 200 + 4 + 200 + 16);
    assert_eq!(
        decrypt(&shared, nonce, &cipher_bytes),
        Err(DecryptionError::MalformedPayload)
    );
}

#[test]
fn encoding_outcome_decides_the_ciphertext() {
    let shared = fixed_secret(15);
    let nonce = b"abcdefghijkl";
    let text = b"{\"int\":1234}".to_vec();
    assert_eq!(
        encrypt_encoded(&shared, nonce, Ok(text.clone())),
        encrypt_bytes(&shared, nonce, &text)
    );
    let failed = match serde_json::from_slice::<Value>(b"]") {
        Ok(_) => panic!("malformed JSON was read"),
        Err(e) => e,
    };
    assert_eq!(
        encrypt_encoded(&shared, nonce, Err(failed)),
        Err(EncryptionError::Encoding)
    );
}
