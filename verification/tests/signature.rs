use ed25519_dalek::{Keypair, PublicKey, SecretKey, Signer};
use experienced::signature::{validate_discord_sig, HexDecodeError, SignatureValidationError};

fn keypair() -> Keypair {
    let secret = SecretKey::from_bytes(&[7u8; 32]).unwrap();
    let public: PublicKey = (&secret).into();
    Keypair { secret, public }
}

fn signed(timestamp: &[u8], body: &[u8]) -> (String, String) {
    let pair = keypair();
    let mut message = timestamp.to_vec();
    message.extend_from_slice(body);
    let signature = pair.sign(&message);
    (hex::encode(signature.to_bytes()), hex::encode(pair.public.to_bytes()))
}

#[test]
fn genuine_request_is_accepted() {
    let (sig, key) = signed(b"1700000000", b"{\"type\":1}");
    assert_eq!(
        validate_discord_sig(Some(sig.as_bytes()), Some(b"1700000000"), b"{\"type\":1}", &key),
        Ok(())
    );
    let upper = key.to_uppercase();
    assert_eq!(
        validate_discord_sig(Some(sig.as_bytes()), Some(b"1700000000"), b"{\"type\":1}", &upper),
        Ok(())
    );
}

#[test]
fn tampered_request_is_refused() {
    let (sig, key) = signed(b"1700000000", b"{\"type\":1}");
    assert_eq!(
        validate_discord_sig(Some(sig.as_bytes()), Some(b"1700000001"), b"{\"type\":1}", &key),
        Err(SignatureValidationError::Dalek)
    );
    assert_eq!(
        validate_discord_sig(Some(sig.as_bytes()), Some(b"1700000000"), b"{\"type\":2}", &key),
        Err(SignatureValidationError::Dalek)
    );
}

#[test]
fn signature_of_body_alone_is_refused() {
    let (sig, key) = signed(b"", b"{\"type\":1}");
    assert_eq!(
        validate_discord_sig(Some(sig.as_bytes()), Some(b"1700000000"), b"{\"type\":1}", &key),
        Err(SignatureValidationError::Dalek)
    );
    assert_eq!(
        validate_discord_sig(Some(sig.as_bytes()), Some(b""), b"{\"type\":1}", &key),
        Ok(())
    );
}

#[test]
fn missing_headers() {
    let (sig, key) = signed(b"1", b"");
    assert_eq!(
        validate_discord_sig(None, Some(b"1"), b"", &key),
        Err(SignatureValidationError::MissingSignatureHeader)
    );
    assert_eq!(
        validate_discord_sig(Some(sig.as_bytes()), None, b"", &key),
        Err(SignatureValidationError::MissingTimestampHeader)
    );
}

#[test]
fn bad_hex() {
    let (sig, key) = signed(b"1", b"");
    assert_eq!(
        validate_discord_sig(Some(b"abc"), Some(b"1"), b"", &key),
        Err(SignatureValidationError::HexDecode(HexDecodeError::OddLength))
    );
    assert_eq!(
        validate_discord_sig(Some(b"0g"), Some(b"1"), b"", &key),
        Err(SignatureValidationError::HexDecode(HexDecodeError::InvalidHexCharacter {
            c: 'g',
            index: 1
        }))
    );
    assert_eq!(
        validate_discord_sig(Some(sig.as_bytes()), Some(b"1"), b"", "zz"),
        Err(SignatureValidationError::HexDecode(HexDecodeError::InvalidHexCharacter {
            c: 'z',
            index: 0
        }))
    );
}

#[test]
fn malformed_key_or_signature() {
    let (sig, key) = signed(b"1", b"");
    // A short signature is padded with zeros and then fails to verify.
    assert_eq!(
        validate_discord_sig(Some(b"00"), Some(b"1"), b"", &key),
        Err(SignatureValidationError::Dalek)
    );
    // The last byte's three high bits must be clear.
    let mut bytes = hex::decode(&sig).unwrap();
    bytes[63] |= 0xE0;
    let high = hex::encode(bytes);
    assert_eq!(
        validate_discord_sig(Some(high.as_bytes()), Some(b"1"), b"", &key),
        Err(SignatureValidationError::Dalek)
    );
    assert_eq!(
        validate_discord_sig(Some(sig.as_bytes()), Some(b"1"), b"", "abcd"),
        Err(SignatureValidationError::Dalek)
    );
}
