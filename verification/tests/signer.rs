use cf_ws_v1::signer::{sign, sign_with_key, SignError};

const SECRET: &str = "YW4gZXhhbXBsZSBzZWNyZXQgb2Ygc29tZSBsZW5ndGg=";
const CHALLENGE: &str = "c100b894-1729-464d-ace1-52dbce11db42";
const SIGNED: &str =
    "WXRuoJVrlTMdDReZyoDmFZBM5gi2sje5cXHXrT5A4kv5ldOWUoo0zSupMtxdBqsBtIuGqGwRMSFoi1Gm4kTcPQ==";

#[test]
fn sign_reproduces_known_vector() {
    assert_eq!(sign(SECRET, CHALLENGE), Ok(SIGNED.to_owned()));
}

#[test]
fn sign_is_repeatable() {
    let first = sign(SECRET, CHALLENGE);
    let second = sign(SECRET, CHALLENGE);
    assert_eq!(first, second);
    assert!(first.is_ok());
}

#[test]
fn sign_depends_on_the_challenge() {
    assert_ne!(sign(SECRET, CHALLENGE), sign(SECRET, "another challenge"));
}

#[test]
fn sign_of_empty_challenge() {
    assert_eq!(
        sign(SECRET, ""),
        Ok("YWWjx7IvONFeVxNUB3JUKwHfLmMQPD23iSfFklagM1iqupFJbNH1kfh87sUXqVwZOV/Xo8yKAzc3gJZCwhZZSA=="
            .to_owned())
    );
}

#[test]
fn sign_with_empty_secret() {
    assert_eq!(
        sign("", "abc"),
        Ok("7VSK0pZwKbyLm8TW36WBs9yxLN/SHh7AMRrigiL9HMMsU1U2bkPcgrlpG7MOB/fBdLyGNpBtNpIN01hmrxbOxg=="
            .to_owned())
    );
}

#[test]
fn sign_hashes_utf8_bytes() {
    assert_eq!(
        sign("AAECAwQFBgcICQoLDA0ODw==", "h\u{e9}llo"),
        Ok("Ezx5Ou60UXTcfz9qdUPz9TeYjomBupbLxdYn4zG6g+Imuj2HhCRUn0o13R/n1aL0L7z/SzprgPAF8TTxsbEOTg=="
            .to_owned())
    );
}

#[test]
fn sign_rejects_secret_that_is_not_base64() {
    assert_eq!(sign("not base64!!", CHALLENGE), Err(SignError::InvalidSecretEncoding));
}

#[test]
fn sign_rejects_secret_without_padding() {
    assert_eq!(sign("YW4", CHALLENGE), Err(SignError::InvalidSecretEncoding));
}

#[test]
fn sign_with_key_takes_raw_bytes() {
    let key: Vec<u8> = (0u8..16).collect();
    assert_eq!(
        sign_with_key(&key, "h\u{e9}llo"),
        "Ezx5Ou60UXTcfz9qdUPz9TeYjomBupbLxdYn4zG6g+Imuj2HhCRUn0o13R/n1aL0L7z/SzprgPAF8TTxsbEOTg=="
    );
}

#[test]
fn sign_with_key_agrees_with_sign() {
    assert_eq!(
        sign_with_key(b"an example secret of some length", CHALLENGE),
        SIGNED
    );
}

#[test]
fn signature_is_88_characters() {
    assert_eq!(sign(SECRET, CHALLENGE).map(|s| s.len()), Ok(88));
}
