//! Sealing data under a password: a key derived from the password, a stream
//! cipher built from a keyed hash, and a tag that shows tampering.
//!
//! A sealed token is the text form of `EL1`, a nonce of 16 bytes, the
//! ciphertext and a tag of 32 bytes.

use vstd::prelude::*;
use vstd::string::*;
use vstd::slice::*;
use base64::Engine;
use crate::json::{
    json_into_object, json_object, json_string, json_string_member, json_text,
    json_to_text, members_insert, members_new, members_remove, no_members, object_text,
    quoted_text, string_member, value_members,
};
use crate::system::random_bytes;
use crate::text::{byte_len, same_bytes};

verus! {

/// The bytes of the nonce.
pub const NONCE_LEN: usize = 16;

/// The bytes of the tag.
pub const MAC_LEN: usize = 32;

/// The bytes of a key.
pub const KEY_LEN: usize = 32;

/// The most bytes that a password or a salt may have: what the key
/// derivation is given at most.
pub const MAX_SECRET_LEN: usize = 0xffff_ffff;

/// The most bytes that a sealed token can have: what a tag is taken of at
/// most.
pub const MAX_TOKEN_LEN: usize = 0xffff_ffff;

/// The most bytes that can be sealed at once: what leaves room in a token
/// for the mark, the nonce and the tag.
pub const MAX_INPUT_LEN: usize = 0xffff_ffcc;

/// The rounds of the key derivation.
pub const PBKDF2_ROUNDS: u32 = 100000;

/// The key of `length` bytes that PBKDF2 with HMAC-SHA256 derives from a
/// password and a salt in `rounds` rounds.
pub uninterp spec fn pbkdf2_key(salt: Seq<u8>, password: Seq<u8>, rounds: u32, length: nat) -> Seq<
    u8,
>;

/// The HMAC-SHA256 tag of a message under a key: 32 bytes.
pub uninterp spec fn hmac_sha256(key: Seq<u8>, message: Seq<u8>) -> Seq<u8>;

/// Bytes as text in the URL-safe base64 alphabet, without padding.
pub uninterp spec fn base64_url(bytes: Seq<u8>) -> Seq<char>;

/// Bytes as text in the standard base64 alphabet, with padding.
pub uninterp spec fn base64_standard(bytes: Seq<u8>) -> Seq<char>;

/// The text that `String::from_utf8_lossy` reads out of bytes: the text they
/// encode, with the replacement character for whatever is not well-formed.
pub uninterp spec fn lossy_text(bytes: Seq<u8>) -> Seq<char>;

/// The compact text of the JSON value that the bytes are parsed as, where
/// they are JSON.
pub uninterp spec fn parsed_text(bytes: Seq<u8>) -> Option<Seq<char>>;

/// Trusted: `encode` of base64's `STANDARD` engine.
#[verifier::external_body]
fn base64_standard_encode(bytes: &[u8]) -> (text: String)
    ensures
        text@ == base64_standard(bytes@),
{
    base64::engine::general_purpose::STANDARD.encode(bytes)
}

/// Trusted: `String::from_utf8_lossy`.
#[verifier::external_body]
fn text_of_bytes_lossy(bytes: &[u8]) -> (text: String)
    ensures
        text@ == lossy_text(bytes@),
{
    String::from_utf8_lossy(bytes).into_owned()
}

/// Trusted: `serde_json::from_slice` into a value. Bytes that are no JSON
/// give nothing.
#[verifier::external_body]
fn json_parse(bytes: &[u8]) -> (parsed: Option<serde_json::Value>)
    ensures
        match parsed {
            Some(v) => parsed_text(bytes@) == Some(json_text(v)),
            None => parsed_text(bytes@) is None,
        },
{
    serde_json::from_slice(bytes).ok()
}

/// Trusted: `ring::pbkdf2::derive` with `PBKDF2_HMAC_SHA256`, filling a key
/// of `length` bytes in `rounds` iterations. The inputs are kept far below
/// the sizes at which the hash beneath refuses its input, and there is at
/// least one round.
#[verifier::external_body]
fn derive_key_bytes(salt: &[u8], password: &[u8], rounds: u32, length: usize) -> (key: Vec<u8>)
    requires
        salt@.len() <= u32::MAX,
        password@.len() <= u32::MAX,
        rounds > 0,
        length <= u32::MAX,
    ensures
        key@ == pbkdf2_key(salt@, password@, rounds, length as nat),
        key@.len() == length,
{
    let mut key = vec![0u8; length];
    let rounds = std::num::NonZeroU32::new(rounds).unwrap_or(std::num::NonZeroU32::MIN);
    ring::pbkdf2::derive(ring::pbkdf2::PBKDF2_HMAC_SHA256, rounds, salt, password, &mut key);
    key
}

/// Trusted: `ring::hmac::sign` under a key made by `ring::hmac::Key::new`
/// for `HMAC_SHA256`. The tag has 32 bytes.
#[verifier::external_body]
fn hmac_sign(key: &[u8], message: &[u8]) -> (tag: Vec<u8>)
    requires
        key@.len() <= u32::MAX,
        message@.len() <= u32::MAX,
    ensures
        tag@ == hmac_sha256(key@, message@),
        tag@.len() == MAC_LEN,
{
    let key = ring::hmac::Key::new(ring::hmac::HMAC_SHA256, key);
    ring::hmac::sign(&key, message).as_ref().to_vec()
}

/// Trusted: `encode` of base64's `URL_SAFE_NO_PAD` engine. No other bytes have
/// the same encoding.
#[verifier::external_body]
fn base64_url_encode(bytes: &[u8]) -> (text: String)
    ensures
        text@ == base64_url(bytes@),
        forall|other: Seq<u8>| base64_url(other) == text@ ==> other == bytes@,
{
    base64::engine::general_purpose::URL_SAFE_NO_PAD.encode(bytes)
}

/// Whether decoding found exactly `bytes`.
pub open spec fn decodes_to(found: Option<Vec<u8>>, bytes: Seq<u8>) -> bool {
    found matches Some(b) && b@ == bytes
}

/// Trusted: `decode` of base64's `URL_SAFE_NO_PAD` engine. It accepts a text
/// exactly when the text is the encoding of some bytes, and then gives those
/// bytes back: padding, stray characters and loose trailing bits are all
/// refused.
#[verifier::external_body]
fn base64_url_decode(text: &str) -> (found: Option<Vec<u8>>)
    ensures
        found matches Some(b) ==> base64_url(b@) == text@,
        forall|any: Seq<u8>| base64_url(any) == text@ ==> decodes_to(found, any),
{
    base64::engine::general_purpose::URL_SAFE_NO_PAD.decode(text).ok()
}

/// Trusted: `String::from_utf8`, which gives the text of bytes that are
/// well-formed UTF-8 and refuses all others.
#[verifier::external_body]
fn text_of_bytes(bytes: Vec<u8>) -> (text: Option<String>)
    ensures
        text is Some <==> vstd::utf8::valid_utf8(bytes@),
        text matches Some(s) ==> vstd::utf8::encode_utf8(s@) == bytes@,
{
    String::from_utf8(bytes).ok()
}

/// Why a token could not be opened.
#[derive(Debug, Clone, Copy, PartialEq, Eq, Structural)]
pub enum DecryptError {
    /// The token is not base64 text.
    Encoding,
    /// The token does not begin as a sealed token does.
    UnsupportedFormat,
    /// The tag does not fit: the password is wrong, or the token was cut or
    /// changed.
    InvalidPasswordOrCorrupted,
}

/// The mark with which every sealed token begins: `EL1`.
pub open spec fn magic() -> Seq<u8> {
    seq![0x45u8, 0x4cu8, 0x31u8]
}

/// A counter as four bytes, the highest first.
pub open spec fn counter_bytes(counter: u32) -> Seq<u8> {
    seq![
        (counter as int / 0x100_0000) as u8,
        (counter as int / 0x1_0000 % 0x100) as u8,
        (counter as int / 0x100 % 0x100) as u8,
        (counter as int % 0x100) as u8,
    ]
}

/// The first `blocks` blocks of the key stream: block number `c` is the tag of
/// the nonce followed by `c`.
pub open spec fn stream_blocks(key: Seq<u8>, nonce: Seq<u8>, blocks: nat) -> Seq<u8>
    decreases blocks,
{
    if blocks == 0 {
        Seq::empty()
    } else {
        stream_blocks(key, nonce, (blocks - 1) as nat) + hmac_sha256(
            key,
            nonce + counter_bytes((blocks - 1) as u32),
        )
    }
}

/// The key stream of the given length: as many blocks as it takes, cut to
/// length.
pub open spec fn keystream_of(key: Seq<u8>, nonce: Seq<u8>, length: nat) -> Seq<u8> {
    stream_blocks(key, nonce, (length + 31) / 32).subrange(0, length as int)
}

/// Two byte strings of one length, combined byte by byte with exclusive or.
pub open spec fn xor_bytes(a: Seq<u8>, b: Seq<u8>) -> Seq<u8> {
    Seq::new(a.len(), |i: int| a[i] ^ b[i])
}

/// The bytes of the token that seals `plaintext` under `key` with `nonce`.
pub open spec fn sealed_bytes(key: Seq<u8>, nonce: Seq<u8>, plaintext: Seq<u8>) -> Seq<u8> {
    let ciphertext = xor_bytes(plaintext, keystream_of(key, nonce, plaintext.len()));
    magic() + nonce + ciphertext + hmac_sha256(key, nonce + ciphertext)
}

/// What opening the bytes of a token under `key` gives.
pub open spec fn opened_bytes(key: Seq<u8>, raw: Seq<u8>) -> Result<Seq<u8>, DecryptError> {
    if raw.len() < 3 || raw.subrange(0, 3) != magic() {
        Err(DecryptError::UnsupportedFormat)
    } else if raw.len() < 3 + NONCE_LEN + MAC_LEN || raw.len() > MAX_TOKEN_LEN {
        Err(DecryptError::InvalidPasswordOrCorrupted)
    } else {
        let nonce = raw.subrange(3, 19);
        let ciphertext = raw.subrange(19, raw.len() - MAC_LEN);
        let tag = raw.subrange(raw.len() - MAC_LEN, raw.len() as int);
        if tag != hmac_sha256(key, nonce + ciphertext) {
            Err(DecryptError::InvalidPasswordOrCorrupted)
        } else {
            Ok(xor_bytes(ciphertext, keystream_of(key, nonce, ciphertext.len())))
        }
    }
}

/// What opening a token under a password gives, with the salt `salt`.
pub open spec fn opened(salt: Seq<u8>, password: Seq<char>, token: Seq<char>) -> Result<
    Seq<u8>,
    DecryptError,
> {
    if exists|raw: Seq<u8>| base64_url(raw) == token {
        let raw = choose|raw: Seq<u8>| base64_url(raw) == token;
        opened_bytes(
            pbkdf2_key(salt, vstd::utf8::encode_utf8(password), PBKDF2_ROUNDS, KEY_LEN as nat),
            raw,
        )
    } else {
        Err(DecryptError::Encoding)
    }
}

/// Whether a token opens under a password, and to well-formed UTF-8.
pub open spec fn opens_to_text(salt: Seq<u8>, password: Seq<char>, token: Seq<char>) -> bool {
    match opened(salt, password, token) {
        Ok(bytes) => vstd::utf8::valid_utf8(bytes),
        Err(_) => false,
    }
}

/// Exclusive or with the same bytes twice gives the first bytes back.
pub proof fn xor_twice(a: Seq<u8>, b: Seq<u8>)
    requires
        a.len() == b.len(),
    ensures
        xor_bytes(xor_bytes(a, b), b) == a,
{
    assert forall|i: int| 0 <= i < a.len() implies xor_bytes(xor_bytes(a, b), b)[i] == a[i] by {
        let x = a[i];
        let y = b[i];
        assert((x ^ y) ^ y == x) by (bit_vector);
    }
    assert(xor_bytes(xor_bytes(a, b), b) =~= a);
}

/// What was sealed under a key is opened again under the same key: the bytes
/// of the token for `plaintext` open to `plaintext`.
pub proof fn open_undoes_seal(key: Seq<u8>, nonce: Seq<u8>, plaintext: Seq<u8>)
    requires
        nonce.len() == NONCE_LEN,
        hmac_sha256(
            key,
            nonce + xor_bytes(plaintext, keystream_of(key, nonce, plaintext.len())),
        ).len() == MAC_LEN,
        keystream_of(key, nonce, plaintext.len()).len() == plaintext.len(),
        plaintext.len() <= MAX_INPUT_LEN,
    ensures
        opened_bytes(key, sealed_bytes(key, nonce, plaintext)) == Ok::<Seq<u8>, DecryptError>(
            plaintext,
        ),
{
    let stream = keystream_of(key, nonce, plaintext.len());
    let ciphertext = xor_bytes(plaintext, stream);
    let tag = hmac_sha256(key, nonce + ciphertext);
    let raw = sealed_bytes(key, nonce, plaintext);
    assert(raw.len() == 3 + 16 + plaintext.len() + 32);
    assert(raw.subrange(0, 3) =~= magic());
    assert(raw.subrange(3, 19) =~= nonce);
    assert(raw.subrange(19, raw.len() - MAC_LEN) =~= ciphertext);
    assert(raw.subrange(raw.len() - MAC_LEN, raw.len() as int) =~= tag);
    xor_twice(plaintext, stream);
}

/// Seals and opens data under passwords.
#[derive(Debug, Clone)]
pub struct EncryptionManager {
    pub salt: Vec<u8>,
}

/// The salt that every manager starts with: the bytes of `luna_wallet_salt`.
pub open spec fn default_salt() -> Seq<u8> {
    seq![
        0x6cu8, 0x75u8, 0x6eu8, 0x61u8, 0x5fu8, 0x77u8, 0x61u8, 0x6cu8, 0x6cu8, 0x65u8, 0x74u8,
        0x5fu8, 0x73u8, 0x61u8, 0x6cu8, 0x74u8,
    ]
}

/// The first `count` bytes of `bytes` followed by the rest: a copy.
fn copy_range(bytes: &[u8], from: usize, to: usize) -> (copy: Vec<u8>)
    requires
        from <= to <= bytes@.len(),
    ensures
        copy@ == bytes@.subrange(from as int, to as int),
{
    let mut copy: Vec<u8> = Vec::new();
    let mut i = from;
    while i < to
        invariant
            from <= i <= to <= bytes@.len(),
            copy@ == bytes@.subrange(from as int, i as int),
        decreases to - i,
    {
        copy.push(bytes[i]);
        i = i + 1;
        assert(copy@ =~= bytes@.subrange(from as int, i as int));
    }
    copy
}

/// Appends `more` to `bytes`.
fn append_bytes(bytes: &mut Vec<u8>, more: &[u8])
    ensures
        final(bytes)@ == old(bytes)@ + more@,
{
    let mut i: usize = 0;
    while i < more.len()
        invariant
            i <= more@.len(),
            bytes@ == old(bytes)@ + more@.subrange(0, i as int),
        decreases more@.len() - i,
    {
        bytes.push(more[i]);
        i = i + 1;
        assert(bytes@ =~= old(bytes)@ + more@.subrange(0, i as int));
    }
    assert(more@.subrange(0, more@.len() as int) =~= more@);
}

/// Combines two byte strings with exclusive or.
fn xor_with(data: &[u8], stream: &[u8]) -> (out: Vec<u8>)
    requires
        data@.len() == stream@.len(),
    ensures
        out@ == xor_bytes(data@, stream@),
{
    let mut out: Vec<u8> = Vec::new();
    let mut i: usize = 0;
    while i < data.len()
        invariant
            i <= data@.len(),
            data@.len() == stream@.len(),
            out@.len() == i,
            forall|j: int| 0 <= j < i ==> out@[j] == data@[j] ^ stream@[j],
        decreases data@.len() - i,
    {
        out.push(data[i] ^ stream[i]);
        i = i + 1;
    }
    assert(out@ =~= xor_bytes(data@, stream@));
    out
}

impl EncryptionManager {
    /// A manager with the usual salt.
    pub fn new() -> (manager: Self)
        ensures
            manager.salt@ == default_salt(),
    {
        let mut salt: Vec<u8> = Vec::new();
        salt.push(0x6c);
        salt.push(0x75);
        salt.push(0x6e);
        salt.push(0x61);
        salt.push(0x5f);
        salt.push(0x77);
        salt.push(0x61);
        salt.push(0x6c);
        salt.push(0x6c);
        salt.push(0x65);
        salt.push(0x74);
        salt.push(0x5f);
        salt.push(0x73);
        salt.push(0x61);
        salt.push(0x6c);
        salt.push(0x74);
        assert(salt@ =~= default_salt());
        EncryptionManager { salt }
    }

    /// The key that belongs to a password under this manager's salt.
    pub open spec fn key_of(&self, password: Seq<char>) -> Seq<u8> {
        pbkdf2_key(self.salt@, vstd::utf8::encode_utf8(password), PBKDF2_ROUNDS, KEY_LEN as nat)
    }

    /// Whether the salt and a password are of a size that the key derivation
    /// takes.
    pub open spec fn takes(&self, password: Seq<char>) -> bool {
        self.salt@.len() <= MAX_SECRET_LEN && byte_len(password) <= MAX_SECRET_LEN
    }

    fn derive_key(&self, password: &str) -> (key: Vec<u8>)
        requires
            self.takes(password@),
        ensures
            key@ == self.key_of(password@),
            key@.len() == KEY_LEN,
    {
        derive_key_bytes(self.salt.as_slice(), password.as_bytes(), PBKDF2_ROUNDS, KEY_LEN)
    }

    fn keystream(&self, key: &[u8], nonce: &[u8], length: usize) -> (stream: Vec<u8>)
        requires
            key@.len() == KEY_LEN,
            nonce@.len() == NONCE_LEN,
            length <= MAX_INPUT_LEN,
        ensures
            stream@ == keystream_of(key@, nonce@, length as nat),
            stream@.len() == length,
    {
        let mut output: Vec<u8> = Vec::new();
        let mut counter: u32 = 0;
        while output.len() < length
            invariant
                key@.len() == KEY_LEN,
                nonce@.len() == NONCE_LEN,
                length <= MAX_INPUT_LEN,
                output@.len() == 32 * counter,
                counter <= (length + 31) / 32,
                output@ == stream_blocks(key@, nonce@, counter as nat),
            decreases length + 32 - output@.len(),
        {
            let mut message = copy_range(nonce, 0, nonce.len());
            message.push((counter / 0x100_0000) as u8);
            message.push((counter / 0x1_0000 % 0x100) as u8);
            message.push((counter / 0x100 % 0x100) as u8);
            message.push((counter % 0x100) as u8);
            assert(message@ =~= nonce@ + counter_bytes(counter));
            let block = hmac_sign(key, message.as_slice());
            append_bytes(&mut output, block.as_slice());
            counter = counter + 1;
        }
        assert(counter == (length + 31) / 32);
        output.truncate(length);
        output
    }

    /// Seals `plaintext` under `password` with the given nonce.
    pub fn encrypt_with_nonce(&self, plaintext: &[u8], password: &str, nonce: &[u8]) -> (token:
        String)
        requires
            self.takes(password@),
            plaintext@.len() <= MAX_INPUT_LEN,
            nonce@.len() == NONCE_LEN,
        ensures
            token@ == base64_url(sealed_bytes(self.key_of(password@), nonce@, plaintext@)),
            opened(self.salt@, password@, token@) == Ok::<Seq<u8>, DecryptError>(plaintext@),
    {
        let key = self.derive_key(password);
        let stream = self.keystream(key.as_slice(), nonce, plaintext.len());
        let ciphertext = xor_with(plaintext, stream.as_slice());
        let mut signed = copy_range(nonce, 0, nonce.len());
        append_bytes(&mut signed, ciphertext.as_slice());
        assert(signed@ =~= nonce@ + ciphertext@);
        let tag = hmac_sign(key.as_slice(), signed.as_slice());
        let mut raw: Vec<u8> = Vec::new();
        raw.push(0x45);
        raw.push(0x4c);
        raw.push(0x31);
        append_bytes(&mut raw, nonce);
        append_bytes(&mut raw, ciphertext.as_slice());
        append_bytes(&mut raw, tag.as_slice());
        let token = base64_url_encode(raw.as_slice());
        proof {
            assert(raw@ =~= sealed_bytes(key@, nonce@, plaintext@));
            open_undoes_seal(key@, nonce@, plaintext@);
            let chosen = choose|any: Seq<u8>| base64_url(any) == token@;
            assert(chosen == raw@);
        }
        token
    }

    fn encrypt_bytes(&self, plaintext: &[u8], password: &str) -> (token: String)
        requires
            self.takes(password@),
            plaintext@.len() <= MAX_INPUT_LEN,
        ensures
            exists|nonce: Seq<u8>|
                nonce.len() == NONCE_LEN && token@ == base64_url(
                    #[trigger] sealed_bytes(self.key_of(password@), nonce, plaintext@),
                ),
            opened(self.salt@, password@, token@) == Ok::<Seq<u8>, DecryptError>(plaintext@),
    {
        let nonce = random_bytes(NONCE_LEN);
        self.encrypt_with_nonce(plaintext, password, nonce.as_slice())
    }

    /// Opens a token under `password`. A token that was sealed under the same
    /// password and salt gives back what was sealed; any other is refused,
    /// with the reason.
    pub fn decrypt_bytes(&self, token: &str, password: &str) -> (opened_as: Result<
        Vec<u8>,
        DecryptError,
    >)
        requires
            self.takes(password@),
        ensures
            match opened_as {
                Ok(bytes) => opened(self.salt@, password@, token@) == Ok::<Seq<u8>, DecryptError>(
                    bytes@,
                ),
                Err(e) => opened(self.salt@, password@, token@) == Err::<Seq<u8>, DecryptError>(e),
            },
    {
        let key = self.derive_key(password);
        let raw = match base64_url_decode(token) {
            Some(raw) => raw,
            None => {
                return Err(DecryptError::Encoding);
            },
        };
        proof {
            let chosen = choose|any: Seq<u8>| base64_url(any) == token@;
            assert(chosen == raw@);
        }
        if raw.len() < 3 || raw[0] != 0x45 || raw[1] != 0x4c || raw[2] != 0x31 {
            assert(raw@.len() >= 3 ==> raw@.subrange(0, 3)[0] == raw@[0] && raw@.subrange(0, 3)[1]
                == raw@[1] && raw@.subrange(0, 3)[2] == raw@[2]);
            return Err(DecryptError::UnsupportedFormat);
        }
        assert(raw@.subrange(0, 3) =~= magic());
        if raw.len() < 3 + NONCE_LEN + MAC_LEN || raw.len() > MAX_TOKEN_LEN {
            return Err(DecryptError::InvalidPasswordOrCorrupted);
        }
        let nonce = copy_range(raw.as_slice(), 3, 19);
        let ciphertext = copy_range(raw.as_slice(), 19, raw.len() - MAC_LEN);
        let tag = copy_range(raw.as_slice(), raw.len() - MAC_LEN, raw.len());
        let mut signed = copy_range(nonce.as_slice(), 0, nonce.len());
        append_bytes(&mut signed, ciphertext.as_slice());
        assert(signed@ =~= nonce@ + ciphertext@);
        let expected = hmac_sign(key.as_slice(), signed.as_slice());
        if !same_bytes(tag.as_slice(), expected.as_slice()) {
            return Err(DecryptError::InvalidPasswordOrCorrupted);
        }
        let stream = self.keystream(key.as_slice(), nonce.as_slice(), ciphertext.len());
        Ok(xor_with(ciphertext.as_slice(), stream.as_slice()))
    }
}

impl EncryptionManager {
    /// Seals a text under `password`, with a fresh nonce. What comes out opens
    /// again under the same password.
    pub fn encrypt_data(&self, data: &str, password: &str) -> (token: String)
        requires
            self.takes(password@),
            byte_len(data@) <= MAX_INPUT_LEN,
        ensures
            exists|nonce: Seq<u8>|
                nonce.len() == NONCE_LEN && token@ == base64_url(
                    #[trigger] sealed_bytes(
                        self.key_of(password@),
                        nonce,
                        vstd::utf8::encode_utf8(data@),
                    ),
                ),
            opened(self.salt@, password@, token@) == Ok::<Seq<u8>, DecryptError>(
                vstd::utf8::encode_utf8(data@),
            ),
    {
        self.encrypt_bytes(data.as_bytes(), password)
    }

    /// Opens a token under `password` and reads what was sealed as text.
    /// There is no text where the token cannot be opened, where what was
    /// sealed is not well-formed UTF-8, or where the password or the salt is
    /// beyond the size that the key derivation takes.
    pub fn decrypt_data(&self, encrypted_data: &str, password: &str) -> (text: Option<String>)
        ensures
            text is Some <==> self.takes(password@) && opens_to_text(
                self.salt@,
                password@,
                encrypted_data@,
            ),
            text matches Some(s) ==> opened(self.salt@, password@, encrypted_data@) == Ok::<
                Seq<u8>,
                DecryptError,
            >(vstd::utf8::encode_utf8(s@)),
    {
        if self.salt.len() > MAX_SECRET_LEN || password.as_bytes().len() > MAX_SECRET_LEN {
            return None;
        }
        match self.decrypt_bytes(encrypted_data, password) {
            Ok(bytes) => text_of_bytes(bytes),
            Err(_) => None,
        }
    }
}

/// The members of a wallet once its private key is under seal: the key
/// itself is gone, and the token that seals it stands under
/// `encrypted_private_key`.
pub open spec fn sealed_wallet_members(members: Map<Seq<char>, Seq<char>>, token: Seq<char>) -> Map<
    Seq<char>,
    Seq<char>,
> {
    members.insert("encrypted_private_key"@, quoted_text(token)).remove("private_key"@)
}

/// The members of the envelope around a sealed wallet.
pub open spec fn envelope_members(token: Seq<char>, salt: Seq<u8>) -> Map<Seq<char>, Seq<char>> {
    no_members().insert("encrypted_data"@, quoted_text(token)).insert(
        "version"@,
        quoted_text("1.0"@),
    ).insert("salt"@, quoted_text(base64_standard(salt)))
}

/// The members of a wallet once its private key is out from under its seal.
pub open spec fn opened_wallet_members(members: Map<Seq<char>, Seq<char>>, key: Seq<char>) -> Map<
    Seq<char>,
    Seq<char>,
> {
    members.insert("private_key"@, quoted_text(key)).remove("encrypted_private_key"@)
}

/// Whether a wallet has a private key, as a string, that is beyond the size
/// that can be sealed.
pub open spec fn key_too_large(wallet: serde_json::Value) -> bool {
    match string_member(wallet, "private_key"@) {
        Some(key) => byte_len(key) > MAX_INPUT_LEN,
        None => false,
    }
}

impl EncryptionManager {
    /// Puts the private key of a wallet under seal, where the wallet is an
    /// object with a string under `private_key`, and leaves any other wallet
    /// as it is. A wallet whose key is too large to be sealed comes back
    /// untouched, as an error.
    fn seal_private_key(&self, wallet_data: serde_json::Value, password: &str) -> (sealed: Result<
        serde_json::Value,
        serde_json::Value,
    >)
        requires
            self.takes(password@),
        ensures
            match sealed {
                Ok(after) => self.seals_key(wallet_data, password@, after) && !key_too_large(
                    wallet_data,
                ),
                Err(same) => same == wallet_data && key_too_large(wallet_data),
            },
    {
        let private_key = match json_string_member(&wallet_data, "private_key") {
            Some(key) => key,
            None => {
                return Ok(wallet_data);
            },
        };
        if private_key.as_str().as_bytes().len() > MAX_INPUT_LEN {
            return Err(wallet_data);
        }
        let token = self.encrypt_bytes(private_key.as_str().as_bytes(), password);
        let ghost before = wallet_data;
        match json_into_object(wallet_data) {
            Ok(mut members) => {
                members_insert(&mut members, "encrypted_private_key", json_string(token.as_str()));
                members_remove(&mut members, "private_key");
                let after = json_object(members);
                assert(self.key_sealed_by(before, password@, after, token@));
                Ok(after)
            },
            Err(other) => Ok(other),
        }
    }

    /// Whether `token` seals the private key of `wallet` under `password`,
    /// and `after` is the wallet with the token in place of the key.
    pub open spec fn key_sealed_by(
        &self,
        wallet: serde_json::Value,
        password: Seq<char>,
        after: serde_json::Value,
        token: Seq<char>,
    ) -> bool {
        match (string_member(wallet, "private_key"@), value_members(wallet)) {
            (Some(key), Some(members)) => {
                &&& opened(self.salt@, password, token) == Ok::<Seq<u8>, DecryptError>(
                    vstd::utf8::encode_utf8(key),
                )
                &&& value_members(after) == Some(sealed_wallet_members(members, token))
                &&& json_text(after) == object_text(sealed_wallet_members(members, token))
            },
            _ => false,
        }
    }

    /// Whether `after` is `wallet` with its private key under seal: where
    /// `wallet` is an object with a string under `private_key`, a token that
    /// opens to that key stands under `encrypted_private_key` and the key is
    /// gone; any other wallet is written as it was.
    pub open spec fn seals_key(
        &self,
        wallet: serde_json::Value,
        password: Seq<char>,
        after: serde_json::Value,
    ) -> bool {
        match (string_member(wallet, "private_key"@), value_members(wallet)) {
            (Some(key), Some(members)) => exists|token: Seq<char>| #[trigger]
                self.key_sealed_by(wallet, password, after, token),
            _ => json_text(after) == json_text(wallet),
        }
    }

    /// Seals a wallet under `password`: first its private key, where it has
    /// one, then the whole wallet, written as JSON. The wallet is left with
    /// its private key under seal, and the envelope is handed out: the token,
    /// a version and the salt.
    ///
    /// Where the password, the salt or the private key is beyond the size
    /// that can be sealed, there is no envelope and the wallet stays as it
    /// is. Else the private key is put under seal in any case, and there is
    /// an envelope exactly when the wallet, written with its key under seal,
    /// is of a size that can be sealed.
    pub fn encrypt_wallet(&self, wallet_data: &mut serde_json::Value, password: &str) -> (envelope:
        Option<serde_json::Value>)
        ensures
            !self.takes(password@) || key_too_large(*old(wallet_data)) ==> envelope is None
                && *final(wallet_data) == *old(wallet_data),
            self.takes(password@) && !key_too_large(*old(wallet_data)) ==> {
                &&& self.seals_key(*old(wallet_data), password@, *final(wallet_data))
                &&& envelope is Some <==> byte_len(json_text(*final(wallet_data)))
                    <= MAX_INPUT_LEN
            },
            match envelope {
                Some(e) => self.is_envelope_of(*final(wallet_data), password@, e),
                None => true,
            },
    {
        if self.salt.len() > MAX_SECRET_LEN || password.as_bytes().len() > MAX_SECRET_LEN {
            return None;
        }
        let mut taken = crate::json::json_null();
        std::mem::swap(wallet_data, &mut taken);
        assert(taken == *old(wallet_data));
        let sealed = match self.seal_private_key(taken, password) {
            Ok(sealed) => sealed,
            Err(same) => {
                *wallet_data = same;
                return None;
            },
        };
        let wallet_json = json_to_text(&sealed);
        if wallet_json.as_str().as_bytes().len() > MAX_INPUT_LEN {
            *wallet_data = sealed;
            return None;
        }
        let token = self.encrypt_bytes(wallet_json.as_str().as_bytes(), password);
        *wallet_data = sealed;
        let mut envelope = members_new();
        members_insert(&mut envelope, "encrypted_data", json_string(token.as_str()));
        members_insert(&mut envelope, "version", json_string("1.0"));
        let salt = base64_standard_encode(self.salt.as_slice());
        members_insert(&mut envelope, "salt", json_string(salt.as_str()));
        let e = json_object(envelope);
        assert(self.seals_key(*old(wallet_data), password@, *wallet_data));
        assert(opened(self.salt@, password@, token@) == Ok::<Seq<u8>, DecryptError>(
            vstd::utf8::encode_utf8(json_text(*wallet_data)),
        ));
        assert(json_text(e) == object_text(envelope_members(token@, self.salt@)));
        assert(self.envelope_of(*wallet_data, password@, e, token@));
        assert(self.is_envelope_of(*wallet_data, password@, e));
        Some(e)
    }

    /// Whether `envelope` is an envelope around `wallet` under `password`: it
    /// holds a token that seals the text of the wallet, a version and the
    /// salt.
    pub open spec fn is_envelope_of(
        &self,
        wallet: serde_json::Value,
        password: Seq<char>,
        envelope: serde_json::Value,
    ) -> bool {
        exists|token: Seq<char>| #[trigger] self.envelope_of(wallet, password, envelope, token)
    }

    /// Whether `wallet` is what `envelope` opens to under `password`: the
    /// JSON value that its token seals, with the private key out from under
    /// its seal.
    pub open spec fn is_opened_from(
        &self,
        envelope: serde_json::Value,
        password: Seq<char>,
        wallet: serde_json::Value,
    ) -> bool {
        exists|sealed: serde_json::Value|
            {
                &&& #[trigger] self.unseals(sealed, password, wallet)
                &&& self.wallet_text_in(envelope, password) == Some(json_text(sealed))
            }
    }

    /// Whether `envelope` holds `token`, and `token` seals the text of
    /// `wallet` under `password`.
    pub open spec fn envelope_of(
        &self,
        wallet: serde_json::Value,
        password: Seq<char>,
        envelope: serde_json::Value,
        token: Seq<char>,
    ) -> bool {
        &&& opened(self.salt@, password, token) == Ok::<Seq<u8>, DecryptError>(
            vstd::utf8::encode_utf8(json_text(wallet)),
        )
        &&& json_text(envelope) == object_text(envelope_members(token, self.salt@))
        &&& value_members(envelope) == Some(envelope_members(token, self.salt@))
    }

    /// Whether `password` opens the token of an envelope.
    pub fn verify_password(&self, encrypted_data: &serde_json::Value, password: &str) -> (opens:
        bool)
        ensures
            opens == (self.takes(password@) && self.sealed_in(*encrypted_data, password@) is Some),
    {
        if self.salt.len() > MAX_SECRET_LEN || password.as_bytes().len() > MAX_SECRET_LEN {
            return false;
        }
        match json_string_member(encrypted_data, "encrypted_data") {
            Some(token) => self.decrypt_bytes(token.as_str(), password).is_ok(),
            None => false,
        }
    }

    /// Opens an envelope under `password` and hands out the wallet, with its
    /// private key out from under its seal where that seal opens too. There
    /// is no wallet where the envelope has no token, where the token does not
    /// open, or where what it seals is no JSON.
    pub fn decrypt_wallet(&self, encrypted_data: &serde_json::Value, password: &str) -> (wallet:
        Option<serde_json::Value>)
        ensures
            wallet is Some <==> self.takes(password@) && self.wallet_text_in(
                *encrypted_data,
                password@,
            ) is Some,
            wallet matches Some(w) ==> self.is_opened_from(*encrypted_data, password@, w),
    {
        if self.salt.len() > MAX_SECRET_LEN || password.as_bytes().len() > MAX_SECRET_LEN {
            return None;
        }
        let token = match json_string_member(encrypted_data, "encrypted_data") {
            Some(token) => token,
            None => {
                return None;
            },
        };
        let bytes = match self.decrypt_bytes(token.as_str(), password) {
            Ok(bytes) => bytes,
            Err(_) => {
                return None;
            },
        };
        let sealed = match json_parse(bytes.as_slice()) {
            Some(sealed) => sealed,
            None => {
                return None;
            },
        };
        let ghost before = sealed;
        assert(self.sealed_in(*encrypted_data, password@) == Some(bytes@));
        assert(self.wallet_text_in(*encrypted_data, password@) == Some(json_text(before)));
        let wallet = self.unseal_private_key(sealed, password);
        assert(self.unseals(before, password@, wallet));
        assert(self.is_opened_from(*encrypted_data, password@, wallet));
        Some(wallet)
    }

    /// The bytes that the token of an envelope seals, where the envelope has
    /// a token and the token opens under `password`.
    pub open spec fn sealed_in(&self, envelope: serde_json::Value, password: Seq<char>) -> Option<
        Seq<u8>,
    > {
        match string_member(envelope, "encrypted_data"@) {
            Some(token) => match opened(self.salt@, password, token) {
                Ok(bytes) => Some(bytes),
                Err(_) => None,
            },
            None => None,
        }
    }

    /// The text of the wallet that an envelope seals, where it seals JSON.
    pub open spec fn wallet_text_in(&self, envelope: serde_json::Value, password: Seq<char>) -> Option<
        Seq<char>,
    > {
        match self.sealed_in(envelope, password) {
            Some(bytes) => parsed_text(bytes),
            None => None,
        }
    }

    /// Whether `wallet` is `sealed` with its private key out from under its
    /// seal: where `sealed` is an object with a token under
    /// `encrypted_private_key` that opens under `password`, the key stands
    /// under `private_key` and the token is gone; any other wallet is as it
    /// was.
    pub open spec fn unseals(
        &self,
        sealed: serde_json::Value,
        password: Seq<char>,
        wallet: serde_json::Value,
    ) -> bool {
        match (string_member(sealed, "encrypted_private_key"@), value_members(sealed)) {
            (Some(token), Some(members)) => match opened(self.salt@, password, token) {
                Ok(bytes) => value_members(wallet) == Some(
                    opened_wallet_members(members, lossy_text(bytes)),
                ),
                Err(_) => json_text(wallet) == json_text(sealed),
            },
            _ => json_text(wallet) == json_text(sealed),
        }
    }

    fn unseal_private_key(&self, sealed: serde_json::Value, password: &str) -> (wallet:
        serde_json::Value)
        requires
            self.takes(password@),
        ensures
            self.unseals(sealed, password@, wallet),
    {
        let token = match json_string_member(&sealed, "encrypted_private_key") {
            Some(token) => token,
            None => {
                return sealed;
            },
        };
        let bytes = match self.decrypt_bytes(token.as_str(), password) {
            Ok(bytes) => bytes,
            Err(_) => {
                return sealed;
            },
        };
        let ghost before = sealed;
        match json_into_object(sealed) {
            Ok(mut members) => {
                let key = text_of_bytes_lossy(bytes.as_slice());
                members_insert(&mut members, "private_key", json_string(key.as_str()));
                members_remove(&mut members, "encrypted_private_key");
                json_object(members)
            },
            Err(other) => other,
        }
    }
}

} // verus!
