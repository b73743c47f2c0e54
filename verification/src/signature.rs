//! Checking that an interaction request really comes from Discord: its
//! Ed25519 signature, sent in hex in a header, must sign the request's
//! timestamp header followed by its body, under the application's public key.
use vstd::prelude::*;
use vstd::utf8::encode_utf8;
use ed25519_dalek::Verifier;

verus! {

/// Why hex text could not be decoded.
#[derive(Clone, Copy, Debug, PartialEq, Eq, Structural)]
pub enum HexDecodeError {
    /// A byte that is no hex digit, and its index.
    InvalidHexCharacter { c: char, index: usize },
    OddLength,
    InvalidStringLength,
}

/// The value of a hex digit byte, either case.
pub open spec fn hex_value(b: u8) -> Option<u8> {
    if 0x30 <= b <= 0x39 {
        Some((b - 0x30) as u8)
    } else if 0x41 <= b <= 0x46 {
        Some((b - 0x41 + 10) as u8)
    } else if 0x61 <= b <= 0x66 {
        Some((b - 0x61 + 10) as u8)
    } else {
        None
    }
}

/// The first index of `data`, from `from` on, that holds no hex digit.
pub open spec fn first_non_hex(data: Seq<u8>, from: int) -> Option<int>
    decreases data.len() - from,
{
    if from >= data.len() || from < 0 {
        None
    } else if hex_value(data[from]) is None {
        Some(from)
    } else {
        first_non_hex(data, from + 1)
    }
}

/// What `hex::decode` gives: an error for odd length, else for the first byte
/// that is no hex digit, else the bytes the digit pairs stand for.
pub open spec fn spec_hex_decode(data: Seq<u8>) -> Result<Seq<u8>, HexDecodeError> {
    if data.len() % 2 != 0 {
        Err(HexDecodeError::OddLength)
    } else {
        match first_non_hex(data, 0) {
            Some(i) => Err(HexDecodeError::InvalidHexCharacter { c: data[i] as char, index: i as usize }),
            None => Ok(
                Seq::new(
                    data.len() / 2,
                    |i: int|
                        (16 * hex_value(data[2 * i])->Some_0 + hex_value(
                            data[2 * i + 1],
                        )->Some_0) as u8,
                ),
            ),
        }
    }
}

/// `hex::decode`: the bytes that hex text stands for, as its source shows.
#[verifier::external_body]
fn hex_decode(data: &[u8]) -> (r: Result<Vec<u8>, HexDecodeError>)
    ensures
        match r {
            Ok(v) => spec_hex_decode(data@) == Ok::<Seq<u8>, HexDecodeError>(v@),
            Err(e) => spec_hex_decode(data@) == Err::<Seq<u8>, HexDecodeError>(e),
        },
{
    match hex::decode(data) {
        Ok(v) => Ok(v),
        Err(hex::FromHexError::InvalidHexCharacter { c, index }) => Err(
            HexDecodeError::InvalidHexCharacter { c, index },
        ),
        Err(hex::FromHexError::OddLength) => Err(HexDecodeError::OddLength),
        Err(hex::FromHexError::InvalidStringLength) => Err(HexDecodeError::InvalidStringLength),
    }
}

/// Whether 32 bytes are a compressed Edwards point that decompresses.
pub uninterp spec fn ed25519_point_decompresses(bytes: Seq<u8>) -> bool;

/// `ed25519_dalek::PublicKey::from_bytes`: whether the bytes make a key, that
/// is whether there are exactly 32 of them and they decompress to a curve point.
#[verifier::external_body]
fn public_key_valid(bytes: &[u8]) -> (r: bool)
    ensures
        r == (bytes@.len() == 32 && ed25519_point_decompresses(bytes@)),
{
    ed25519_dalek::PublicKey::from_bytes(bytes).is_ok()
}

/// Whether signature bytes pass the crate's partial check of the `s` scalar:
/// the three highest bits of the last byte are clear.
pub open spec fn signature_bytes_ok(bytes: Seq<u8>) -> bool {
    bytes.len() == 64 && bytes[63] & 0xE0u8 == 0
}

/// `ed25519_dalek::Signature::from_bytes`: whether 64 bytes make a signature,
/// that is whether its scalar passes the crate's partial reduction check.
#[verifier::external_body]
fn signature_valid(bytes: &[u8; 64]) -> (r: bool)
    ensures
        r == signature_bytes_ok(bytes@),
{
    ed25519_dalek::Signature::from_bytes(bytes).is_ok()
}

/// Whether the Ed25519 signature `signature` signs `message` under the public
/// key `key`, as `ed25519_dalek` checks it; a function of the three byte
/// strings alone.
pub uninterp spec fn ed25519_verifies(key: Seq<u8>, message: Seq<u8>, signature: Seq<u8>) -> bool;

/// `Verifier::verify` of `ed25519_dalek::PublicKey`, on the key and signature
/// made from their bytes: whether `signature` signs `message` under `key`.
#[verifier::external_body]
fn verify_message(key: &[u8], message: &[u8], signature: &[u8; 64]) -> (r: bool)
    requires
        key@.len() == 32 && ed25519_point_decompresses(key@),
        signature_bytes_ok(signature@),
    ensures
        r == ed25519_verifies(key@, message@, signature@),
{
    match (ed25519_dalek::PublicKey::from_bytes(key), ed25519_dalek::Signature::from_bytes(signature)) {
        (Ok(k), Ok(s)) => k.verify(message, &s).is_ok(),
        _ => false,
    }
}

/// Why a request's signature was refused.
#[derive(Clone, Copy, Debug, PartialEq, Eq, Structural)]
pub enum SignatureValidationError {
    /// The key or the signature is malformed, or the signature does not match.
    Dalek,
    HexDecode(HexDecodeError),
    MissingSignatureHeader,
    MissingTimestampHeader,
}

/// Decoded signature bytes in a 64-byte array, zeros after them.
pub open spec fn padded_signature(bytes: Seq<u8>) -> Seq<u8> {
    Seq::new(64, |i: int| if i < bytes.len() { bytes[i] } else { 0u8 })
}

/// Whether the signature header, when it decodes, gives at most 64 bytes;
/// more would overrun the signature array.
pub open spec fn signature_fits(signature_header: Option<&[u8]>) -> bool {
    match signature_header {
        Some(h) => match spec_hex_decode(h@) {
            Ok(b) => b.len() <= 64,
            Err(_) => true,
        },
        None => true,
    }
}

/// Where the request is refused before the signature itself is checked, the
/// error; `None` when every such step passes.
pub open spec fn spec_early_failure(
    signature_header: Option<Seq<u8>>,
    timestamp_header: Option<Seq<u8>>,
    public_key: Seq<u8>,
) -> Option<SignatureValidationError> {
    match signature_header {
        None => Some(SignatureValidationError::MissingSignatureHeader),
        Some(h) => match spec_hex_decode(h) {
            Err(e) => Some(SignatureValidationError::HexDecode(e)),
            Ok(sig) => if !signature_bytes_ok(padded_signature(sig)) {
                Some(SignatureValidationError::Dalek)
            } else if timestamp_header is None {
                Some(SignatureValidationError::MissingTimestampHeader)
            } else {
                match spec_hex_decode(public_key) {
                    Err(e) => Some(SignatureValidationError::HexDecode(e)),
                    Ok(key) => if !(key.len() == 32 && ed25519_point_decompresses(key)) {
                        Some(SignatureValidationError::Dalek)
                    } else {
                        None
                    },
                }
            },
        },
    }
}

/// What the check answers: the early failure where there is one, else success
/// exactly when the decoded signature signs the timestamp followed by the body
/// under the decoded key.
pub open spec fn spec_validate_discord_sig(
    signature_header: Option<Seq<u8>>,
    timestamp_header: Option<Seq<u8>>,
    body: Seq<u8>,
    public_key: Seq<u8>,
) -> Result<(), SignatureValidationError> {
    match spec_early_failure(signature_header, timestamp_header, public_key) {
        Some(e) => Err(e),
        None => if ed25519_verifies(
            spec_hex_decode(public_key)->Ok_0,
            timestamp_header->Some_0 + body,
            padded_signature(spec_hex_decode(signature_header->Some_0)->Ok_0),
        ) {
            Ok(())
        } else {
            Err(SignatureValidationError::Dalek)
        },
    }
}

/// The bytes of an optional header.
pub open spec fn header_bytes(h: Option<&[u8]>) -> Option<Seq<u8>> {
    match h {
        Some(b) => Some(b@),
        None => None,
    }
}

/// `a` followed by `b`.
fn concat(a: &[u8], b: &[u8]) -> (r: Vec<u8>)
    requires
        a@.len() + b@.len() <= usize::MAX,
    ensures
        r@ == a@ + b@,
{
    let mut r: Vec<u8> = Vec::with_capacity(a.len() + b.len());
    let mut i: usize = 0;
    while i < a.len()
        invariant
            i <= a.len(),
            r@ == a@.take(i as int),
        decreases a.len() - i,
    {
        r.push(a[i]);
        i = i + 1;
        assert(r@ == a@.take(i as int));
    }
    let mut j: usize = 0;
    while j < b.len()
        invariant
            j <= b.len(),
            i == a.len(),
            r@ == a@ + b@.take(j as int),
        decreases b.len() - j,
    {
        r.push(b[j]);
        j = j + 1;
        assert(r@ == a@ + b@.take(j as int));
    }
    assert(a@.take(a.len() as int) == a@);
    assert(b@.take(b.len() as int) == b@);
    r
}

/// Checks a request's signature against the application's hex public key: the
/// signature header must be there and decode, the signature must be well
/// formed, the timestamp header must be there, and the key must decode to a
/// valid key; then the signature must sign the timestamp followed by the body.
pub fn validate_discord_sig(
    signature_header: Option<&[u8]>,
    timestamp_header: Option<&[u8]>,
    body: &[u8],
    pub_key_string: &str,
) -> (r: Result<(), SignatureValidationError>)
    requires
        signature_fits(signature_header),
        timestamp_header matches Some(t) ==> t@.len() + body@.len() <= usize::MAX,
    ensures
        r == spec_validate_discord_sig(
            header_bytes(signature_header),
            header_bytes(timestamp_header),
            body@,
            encode_utf8(pub_key_string@),
        ),
{
    let header = match signature_header {
        Some(h) => h,
        None => {
            return Err(SignatureValidationError::MissingSignatureHeader);
        },
    };
    let sig_hex = match hex_decode(header) {
        Ok(v) => v,
        Err(e) => {
            return Err(SignatureValidationError::HexDecode(e));
        },
    };
    let mut sig_arr: [u8; 64] = [0; 64];
    let mut i: usize = 0;
    while i < sig_hex.len()
        invariant
            sig_hex@.len() <= 64,
            i <= sig_hex.len(),
            sig_arr@.len() == 64,
            forall|j: int| 0 <= j < i ==> sig_arr@[j] == sig_hex@[j],
            forall|j: int| i <= j < 64 ==> sig_arr@[j] == 0u8,
        decreases sig_hex.len() - i,
    {
        sig_arr.set(i, sig_hex[i]);
        i = i + 1;
    }
    assert(sig_arr@ =~= padded_signature(sig_hex@));
    if !signature_valid(&sig_arr) {
        return Err(SignatureValidationError::Dalek);
    }
    let timestamp = match timestamp_header {
        Some(t) => t,
        None => {
            return Err(SignatureValidationError::MissingTimestampHeader);
        },
    };
    let key_hex = match hex_decode(pub_key_string.as_bytes()) {
        Ok(v) => v,
        Err(e) => {
            return Err(SignatureValidationError::HexDecode(e));
        },
    };
    if !public_key_valid(key_hex.as_slice()) {
        return Err(SignatureValidationError::Dalek);
    }
    let to_be_verified = concat(timestamp, body);
    if verify_message(key_hex.as_slice(), to_be_verified.as_slice(), &sig_arr) {
        Ok(())
    } else {
        Err(SignatureValidationError::Dalek)
    }
}

} // verus!
