use zap::error::{HashingError, PasswordError};
use zap::password::{convert_pw_to_key, key_from_confirmed_password, key_from_password};

fn hex(bytes: &[u8]) -> String {
    bytes.iter().map(|b| format!("{:02x}", b)).collect()
}

#[test]
fn password_becomes_its_sha256_digest() {
    let key = convert_pw_to_key(String::from("abc"), 256).unwrap();
    assert_eq!(hex(&key), "ba7816bf8f01cfea414140de5dae2223b00361a396177a9cb410ff61f20015ad");
    let key = convert_pw_to_key(String::new(), 256).unwrap();
    assert_eq!(hex(&key), "e3b0c44298fc1c149afbf4c8996fb92427ae41e4649b934ca495991b7852b855");
}

#[test]
fn password_becomes_its_sha512_digest() {
    let key = convert_pw_to_key(String::from("abc"), 512).unwrap();
    assert_eq!(
        hex(&key),
        "ddaf35a193617abacc417349ae20413112e6fa4e89a97ea20a9eeee64b55d39a2192992a274fc1a836ba3c23a3feebbd454d4423643ce80e2a9ac94fa54ca49f"
    );
    assert_eq!(key.len(), 64);
}

#[test]
fn other_key_lengths_are_refused() {
    for len in [0usize, 32, 128, 255, 257, 1024] {
        match convert_pw_to_key(String::from("abc"), len) {
            Err(HashingError::UnrecognisedAlgorithmLength(n)) => assert_eq!(n, len),
            other => panic!("{:?}", other),
        }
    }
}

#[test]
fn password_is_hashed_as_utf8() {
    // U+00E9, two bytes in UTF-8
    let key = convert_pw_to_key(String::from("\u{e9}"), 256).unwrap();
    assert_eq!(hex(&key), "4a99557e4033c3539de2eb65472017cad5f9557f7a0625a09f1c3f6e2ba69c4c");
}

#[test]
fn confirmed_password_must_be_repeated_and_not_empty() {
    let key = key_from_confirmed_password(String::from("abc"), String::from("abc"), 256).unwrap();
    assert_eq!(key, convert_pw_to_key(String::from("abc"), 256).unwrap());
    assert!(matches!(
        key_from_confirmed_password(String::from("abc"), String::from("abd"), 256),
        Err(PasswordError::PasswordsDoNotMatch)
    ));
    assert!(matches!(
        key_from_confirmed_password(String::new(), String::new(), 256),
        Err(PasswordError::PasswordEmpty)
    ));
    assert!(matches!(
        key_from_confirmed_password(String::new(), String::from("abc"), 256),
        Err(PasswordError::PasswordEmpty)
    ));
    assert!(matches!(
        key_from_confirmed_password(String::from("abc"), String::from("abc"), 100),
        Err(PasswordError::HashingError(HashingError::UnrecognisedAlgorithmLength(100)))
    ));
}

#[test]
fn password_typed_once_is_taken_as_it_is() {
    assert_eq!(
        key_from_password(String::from("abc"), 256).unwrap(),
        convert_pw_to_key(String::from("abc"), 256).unwrap()
    );
    // an empty password is not refused here
    assert_eq!(key_from_password(String::new(), 256).unwrap().len(), 32);
    assert!(matches!(
        key_from_password(String::from("abc"), 7),
        Err(PasswordError::HashingError(HashingError::UnrecognisedAlgorithmLength(7)))
    ));
}
