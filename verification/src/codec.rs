//! Keys, hashes and encodings: what the library has from the `hex`, `sha2`,
//! `nostr` and `lightning_invoice` crates.

use vstd::prelude::*;
use vstd::utf8::encode_utf8;
use crate::text::result_view;

verus! {

// ---------------------------------------------------------------------------
// Hexadecimal
// ---------------------------------------------------------------------------

/// The lower-case hexadecimal digit of a number under 16.
pub open spec fn hex_digit(n: int) -> char {
    if n < 10 {
        ('0' as int + n) as char
    } else {
        ('a' as int + (n - 10)) as char
    }
}

/// Bytes in lower-case hexadecimal, two digits each, high digit first.
pub open spec fn hex_text(data: Seq<u8>) -> Seq<char> {
    Seq::new(
        2 * data.len(),
        |i: int|
            hex_digit(
                if i % 2 == 0 {
                    data[i / 2] as int / 16
                } else {
                    data[i / 2] as int % 16
                },
            ),
    )
}

/// The value of a hexadecimal digit of either case.
pub open spec fn hex_value(c: u8) -> Option<int> {
    if 48 <= c <= 57 {
        Some(c - 48)
    } else if 65 <= c <= 70 {
        Some(c - 55)
    } else if 97 <= c <= 102 {
        Some(c - 87)
    } else {
        None
    }
}

/// The bytes that hexadecimal digits stand for: none where their number is odd
/// or one of them is no digit.
pub open spec fn hex_bytes(digits: Seq<u8>) -> Option<Seq<u8>> {
    if digits.len() % 2 == 0 && forall|i: int|
        0 <= i < digits.len() ==> hex_value(#[trigger] digits[i]) is Some {
        Some(
            Seq::new(
                digits.len() / 2,
                |i: int|
                    (16 * hex_value(digits[2 * i])->0 + hex_value(digits[2 * i + 1])->0) as u8,
            ),
        )
    } else {
        None
    }
}

/// Whether a text is made of lower-case hexadecimal digits.
pub open spec fn is_lower_hex(s: Seq<char>) -> bool {
    forall|i: int| 0 <= i < s.len() ==> '0' <= #[trigger] s[i] <= '9' || 'a' <= s[i] <= 'f'
}

/// The text of the error that `hex` gives for digits it refuses.
pub uninterp spec fn hex_refusal(digits: Seq<u8>) -> Seq<char>;

/// `hex::encode`: two lower-case digits for each byte.
#[verifier::external_body]
pub(crate) fn hex_encode(data: &[u8]) -> (r: String)
    ensures
        r@ == hex_text(data@),
{
    hex::encode(data)
}

/// `hex::decode`: the bytes that the digits stand for. An odd number of digits
/// or a byte that is no digit is an error, given by its text.
#[verifier::external_body]
pub(crate) fn hex_decode(digits: &[u8]) -> (r: Result<Vec<u8>, String>)
    ensures
        match r {
            Ok(data) => hex_bytes(digits@) == Some(data@),
            Err(e) => hex_bytes(digits@) is None && e@ == hex_refusal(digits@),
        },
{
    hex::decode(digits).map_err(|e: hex::FromHexError| e.to_string())
}

/// A text whose characters are ASCII, byte by byte.
pub open spec fn ascii_bytes(s: Seq<char>) -> Seq<u8> {
    s.map_values(|c: char| c as u8)
}

/// Bytes that are written in hexadecimal are read back as they were.
pub proof fn hex_reads_back(data: Seq<u8>)
    ensures
        hex_bytes(ascii_bytes(hex_text(data))) == Some(data),
{
    let digits = ascii_bytes(hex_text(data));
    assert forall|i: int| 0 <= i < digits.len() implies hex_value(#[trigger] digits[i]) == Some(
        if i % 2 == 0 {
            data[i / 2] as int / 16
        } else {
            data[i / 2] as int % 16
        },
    ) by {}
    assert forall|i: int| 0 <= i < data.len() implies #[trigger] hex_bytes(digits)->0[i]
        == data[i] by {
        assert(hex_value(digits[2 * i]) == Some(data[i] as int / 16));
        assert(hex_value(digits[2 * i + 1]) == Some(data[i] as int % 16));
    }
    assert(hex_bytes(digits)->0 =~= data);
}

/// The bytes that a text in hexadecimal stands for.
pub fn decode_hex(digits: &str) -> (r: Result<Vec<u8>, String>)
    ensures
        match r {
            Ok(data) => hex_bytes(encode_utf8(digits@)) == Some(data@),
            Err(e) => hex_bytes(encode_utf8(digits@)) is None && e@ == hex_refusal(
                encode_utf8(digits@),
            ),
        },
{
    hex_decode(digits.as_bytes())
}

/// Bytes in lower-case hexadecimal.
pub fn encode_hex(data: &[u8]) -> (r: String)
    ensures
        r@ == hex_text(data@),
{
    hex_encode(data)
}

// ---------------------------------------------------------------------------
// SHA-256
// ---------------------------------------------------------------------------

/// The SHA-256 digest of bytes.
pub uninterp spec fn sha256_digest(data: Seq<u8>) -> Seq<u8>;

/// `sha2::Sha256::digest`: the 32 bytes of the digest.
#[verifier::external_body]
pub(crate) fn sha256(data: &[u8]) -> (r: Vec<u8>)
    ensures
        r@ == sha256_digest(data@),
        r@.len() == 32,
{
    <sha2::Sha256 as sha2::Digest>::digest(data).to_vec()
}

// ---------------------------------------------------------------------------
// Nostr keys and encryption
// ---------------------------------------------------------------------------

/// A Nostr key pair: the secret key's bytes and the public key in hexadecimal.
pub struct NostrKeys {
    pub secret: Vec<u8>,
    pub public: String,
}

/// The public key of a secret key, in hexadecimal.
pub uninterp spec fn public_key_hex(secret: Seq<u8>) -> Seq<char>;

impl NostrKeys {
    /// The public key is that of the secret key.
    pub open spec fn wf(&self) -> bool {
        &&& self.secret@.len() == 32
        &&& self.public@ == public_key_hex(self.secret@)
        &&& self.public@.len() == 64
        &&& is_lower_hex(self.public@)
    }

    /// A fresh random key pair.
    pub fn generate() -> (r: NostrKeys)
        ensures
            r.wf(),
    {
        generate_keys()
    }

    /// The secret key in hexadecimal.
    pub fn secret_hex(&self) -> (r: String)
        ensures
            r@ == hex_text(self.secret@),
    {
        hex_encode(self.secret.as_slice())
    }
}

/// `nostr::Keys::generate`: a random key pair, taken apart by `to_secret_bytes`
/// and by `to_hex` of its public key. Which key comes is chance.
#[verifier::external_body]
pub(crate) fn generate_keys() -> (r: NostrKeys)
    ensures
        r.secret@.len() == 32,
        r.public@ == public_key_hex(r.secret@),
        r.public@.len() == 64,
        is_lower_hex(r.public@),
{
    let keys = nostr_sdk::Keys::generate();
    NostrKeys {
        secret: keys.secret_key().to_secret_bytes().to_vec(),
        public: keys.public_key().to_hex(),
    }
}

/// What `nip04::decrypt` gives for a secret key, the other party's public key
/// in hexadecimal and an encrypted content: the plain text, or the text of the
/// error.
pub uninterp spec fn nip04_open(secret: Seq<u8>, peer: Seq<char>, content: Seq<char>) -> Result<
    Seq<char>,
    Seq<char>,
>;

/// The text of the error with which `nip04::encrypt` refuses a pair of keys.
pub uninterp spec fn nip04_key_error(secret: Seq<u8>, peer: Seq<char>) -> Seq<char>;

/// `nip04::encrypt` for a secret key and the other party's public key. The
/// content is encrypted under a random vector, so that only this can be said
/// of it: decrypting it with the same two keys gives the plain text back.
/// It fails only for keys with which nothing can be decrypted either.
#[verifier::external_body]
pub(crate) fn nip04_encrypt(secret: &[u8], peer: &str, plain: &str) -> (r: Result<String, String>)
    ensures
        match r {
            Ok(content) => nip04_open(secret@, peer@, content@) == Ok::<Seq<char>, Seq<char>>(
                plain@,
            ),
            Err(e) => e@ == nip04_key_error(secret@, peer@) && forall|content: Seq<char>|
                (#[trigger] nip04_open(secret@, peer@, content)) is Err,
        },
{
    let secret = nostr_sdk::SecretKey::from_slice(secret).map_err(|e| e.to_string())?;
    let peer = nostr_sdk::PublicKey::from_hex(peer).map_err(|e| e.to_string())?;
    nwc::nostr::nips::nip04::encrypt(&secret, &peer, plain).map_err(|e| e.to_string())
}

/// `nip04::decrypt` for a secret key and the other party's public key; an error
/// is given by its text.
#[verifier::external_body]
pub(crate) fn nip04_decrypt(secret: &[u8], peer: &str, content: &str) -> (r: Result<
    String,
    String,
>)
    ensures
        result_view(r) == nip04_open(secret@, peer@, content@),
{
    let secret = nostr_sdk::SecretKey::from_slice(secret).map_err(|e| e.to_string())?;
    let peer = nostr_sdk::PublicKey::from_hex(peer).map_err(|e| e.to_string())?;
    nwc::nostr::nips::nip04::decrypt(&secret, &peer, content).map_err(|e| e.to_string())
}

// ---------------------------------------------------------------------------
// BOLT11 invoices
// ---------------------------------------------------------------------------

/// The payment hash that a BOLT11 invoice carries, in hexadecimal, or the error
/// with which `lightning_invoice` refuses the text, in its debug form.
pub uninterp spec fn bolt11_hash(invoice: Seq<char>) -> Result<Seq<char>, Seq<char>>;

/// `Bolt11Invoice::from_str`, and `payment_hash` of the invoice it reads.
#[verifier::external_body]
pub(crate) fn read_bolt11_hash(invoice: &str) -> (r: Result<String, String>)
    ensures
        result_view(r) == bolt11_hash(invoice@),
{
    <lightning_invoice::Bolt11Invoice as std::str::FromStr>::from_str(invoice)
        .map(|parsed| parsed.payment_hash().to_string())
        .map_err(|e| format!("{e:?}"))
}

} // verus!
