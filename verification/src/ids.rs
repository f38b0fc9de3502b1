//! Identifiers: hashed ids, random ids and base64 text.
use vstd::prelude::*;
use vstd::utf8::encode_utf8;
use crate::collections::KeyEq;

verus! {

/// The SHA-256 digest of a byte string.
pub uninterp spec fn sha256(data: Seq<u8>) -> Seq<u8>;

/// Calls `sha2::Sha256::digest`. Claimed: the result is the digest of `data`,
/// named `sha256`, and (by its output type `GenericArray<u8, U32>`) is 32 bytes long.
#[verifier::external_body]
fn sha256_digest(data: &[u8]) -> (r: Vec<u8>)
    ensures
        r@ == sha256(data@),
        r@.len() == 32,
{
    <sha2::Sha256 as sha2::Digest>::digest(data).to_vec()
}

/// The character of a six-bit value in the URL-safe base64 alphabet: `A`-`Z`, `a`-`z`,
/// `0`-`9`, then `-` and `_` (by their code points).
pub open spec fn base64_url_char(v: int) -> char {
    if v < 26 {
        (65 + v) as char
    } else if v < 52 {
        (97 + (v - 26)) as char
    } else if v < 62 {
        (48 + (v - 52)) as char
    } else if v == 62 {
        45 as char
    } else {
        95 as char
    }
}

/// The base64 text of a byte string, URL-safe alphabet, without padding: every three
/// bytes give four characters of six bits each; one or two bytes left over give two or
/// three characters, the last one filled up with zero bits.
pub open spec fn base64_url(data: Seq<u8>) -> Seq<char>
    decreases data.len(),
{
    let b0 = data[0] as int;
    let b1 = data[1] as int;
    let b2 = data[2] as int;
    if data.len() == 0 {
        Seq::empty()
    } else if data.len() == 1 {
        seq![base64_url_char(b0 / 4), base64_url_char((b0 % 4) * 16)]
    } else if data.len() == 2 {
        seq![
            base64_url_char(b0 / 4),
            base64_url_char((b0 % 4) * 16 + b1 / 16),
            base64_url_char((b1 % 16) * 4),
        ]
    } else {
        seq![
            base64_url_char(b0 / 4),
            base64_url_char((b0 % 4) * 16 + b1 / 16),
            base64_url_char((b1 % 16) * 4 + b2 / 64),
            base64_url_char(b2 % 64),
        ] + base64_url(data.subrange(3, data.len() as int))
    }
}

/// The length of the unpadded base64 text of `n` bytes: four characters for every three
/// bytes, and two or three for one or two bytes left over.
pub open spec fn base64_unpadded_len(n: nat) -> nat {
    n / 3 * 4 + if n % 3 == 0 {
        0
    } else {
        n % 3 + 1
    }
}

/// The unpadded base64 text of `n` bytes has `base64_unpadded_len(n)` characters.
pub proof fn lemma_base64_url_len(data: Seq<u8>)
    ensures
        base64_url(data).len() == base64_unpadded_len(data.len()),
    decreases data.len(),
{
    if data.len() >= 3 {
        let rest = data.subrange(3, data.len() as int);
        lemma_base64_url_len(rest);
        assert(rest.len() == data.len() - 3);
        assert(base64_unpadded_len(data.len()) == base64_unpadded_len(rest.len()) + 4) by {
            let n = data.len();
            assert((n - 3) as nat / 3 == n / 3 - 1);
            assert((n - 3) as nat % 3 == n % 3);
        }
    }
}

/// Calls `base64::Engine::encode` with the `URL_SAFE_NO_PAD` engine. Claimed:
/// the result is the URL-safe base64 text of `data` without padding, as `base64_url`
/// states it.
#[verifier::external_body]
fn encode_base64_url(data: &[u8]) -> (r: String)
    ensures
        r@ == base64_url(data@),
{
    base64::Engine::encode(&base64::engine::general_purpose::URL_SAFE_NO_PAD, data)
}

/// Calls `rand::RngCore::fill_bytes` on `rand::thread_rng()`. Claimed: the result
/// has `n` bytes; what they are is left open (they are random).
#[verifier::external_body]
fn random_bytes(n: usize) -> (r: Vec<u8>)
    ensures
        r@.len() == n,
{
    let mut bytes = vec![0u8; n];
    rand::RngCore::fill_bytes(&mut rand::thread_rng(), &mut bytes);
    bytes
}

/// The first `n` bytes of the SHA-256 digest of the UTF-8 encoding of `text`,
/// written in base64.
pub open spec fn hashed_id(text: Seq<char>, n: nat) -> Seq<char> {
    base64_url(sha256(encode_utf8(text)).take(n as int))
}

fn prefix_bytes(bytes: &Vec<u8>, n: usize) -> (r: Vec<u8>)
    requires
        n <= bytes@.len(),
    ensures
        r@ == bytes@.take(n as int),
{
    let mut out: Vec<u8> = Vec::new();
    let mut i: usize = 0;
    while i < n
        invariant
            i <= n,
            n <= bytes@.len(),
            out@ == bytes@.take(i as int),
        decreases n - i,
    {
        out.push(bytes[i]);
        i = i + 1;
        assert(out@ =~= bytes@.take(i as int));
    }
    out
}

fn hash_prefix_text(text: &str, n: usize) -> (r: String)
    requires
        n <= 32,
    ensures
        r@ == hashed_id(text@, n as nat),
        r@.len() == base64_unpadded_len(n as nat),
{
    let digest = sha256_digest(text.as_bytes());
    let prefix = prefix_bytes(&digest, n);
    proof {
        lemma_base64_url_len(prefix@);
    }
    encode_base64_url(prefix.as_slice())
}

/// Text that is already in base64.
#[derive(Debug)]
pub struct Base64Text(pub String);

impl View for Base64Text {
    type V = Seq<char>;

    open spec fn view(&self) -> Seq<char> {
        self.0@
    }
}

impl Clone for Base64Text {
    fn clone(&self) -> (r: Self)
        ensures
            r == *self,
    {
        Base64Text(self.0.clone())
    }
}

impl PartialEq for Base64Text {
    fn eq(&self, other: &Self) -> (r: bool) {
        self.0 == other.0
    }
}

impl vstd::std_specs::cmp::PartialEqSpecImpl for Base64Text {
    open spec fn obeys_eq_spec() -> bool {
        true
    }

    open spec fn eq_spec(&self, other: &Self) -> bool {
        self@ == other@
    }
}

impl KeyEq for Base64Text {
    fn key_eq(&self, other: &Self) -> (r: bool) {
        self.0 == other.0
    }
}

impl Base64Text {
    /// Base64 encoding of the UTF-8 bytes of `text`.
    pub fn from_text(text: &str) -> (r: Self)
        ensures
            r@ == base64_url(encode_utf8(text@)),
    {
        Base64Text(encode_base64_url(text.as_bytes()))
    }

    pub fn base64_str(&self) -> (r: String)
        ensures
            r@ == self@,
    {
        self.0.clone()
    }
}

/// A 64-bit id derived from a name: the first 8 bytes of its SHA-256 digest.
#[derive(Debug)]
pub struct U64IdUrlEnc {
    pub text: Base64Text,
}

impl View for U64IdUrlEnc {
    type V = Seq<char>;

    open spec fn view(&self) -> Seq<char> {
        self.text@
    }
}

impl Clone for U64IdUrlEnc {
    fn clone(&self) -> (r: Self)
        ensures
            r == *self,
    {
        U64IdUrlEnc { text: self.text.clone() }
    }
}

impl PartialEq for U64IdUrlEnc {
    fn eq(&self, other: &Self) -> (r: bool) {
        self.text.0 == other.text.0
    }
}

impl vstd::std_specs::cmp::PartialEqSpecImpl for U64IdUrlEnc {
    open spec fn obeys_eq_spec() -> bool {
        true
    }

    open spec fn eq_spec(&self, other: &Self) -> bool {
        self@ == other@
    }
}

impl KeyEq for U64IdUrlEnc {
    fn key_eq(&self, other: &Self) -> (r: bool) {
        self.text.0 == other.text.0
    }
}

impl U64IdUrlEnc {
    pub fn from_text(text: &str) -> (r: Self)
        ensures
            r@ == hashed_id(text@, 8),
            r@.len() == 11,
    {
        U64IdUrlEnc { text: Base64Text(hash_prefix_text(text, 8)) }
    }

    pub fn id_str(&self) -> (r: String)
        ensures
            r@ == self@,
    {
        self.text.0.clone()
    }
}

/// A 128-bit id: random, or derived from a name (the first 16 bytes of its SHA-256 digest).
#[derive(Debug)]
pub struct UuidUrlEnc {
    pub text: Base64Text,
}

impl View for UuidUrlEnc {
    type V = Seq<char>;

    open spec fn view(&self) -> Seq<char> {
        self.text@
    }
}

impl UuidUrlEnc {
    pub fn generate() -> (r: Self)
        ensures
            exists|b: Seq<u8>| b.len() == 16 && r@ == base64_url(b),
    {
        let bytes = random_bytes(16);
        UuidUrlEnc { text: Base64Text(encode_base64_url(bytes.as_slice())) }
    }

    pub fn from_text(text: &str) -> (r: Self)
        ensures
            r@ == hashed_id(text@, 16),
    {
        UuidUrlEnc { text: Base64Text(hash_prefix_text(text, 16)) }
    }

    pub fn id_str(&self) -> (r: String)
        ensures
            r@ == self@,
    {
        self.text.0.clone()
    }
}

/// A random 48-bit id.
#[derive(Debug)]
pub struct Id48bit {
    pub text: String,
}

impl View for Id48bit {
    type V = Seq<char>;

    open spec fn view(&self) -> Seq<char> {
        self.text@
    }
}

impl Clone for Id48bit {
    fn clone(&self) -> (r: Self)
        ensures
            r == *self,
    {
        Id48bit { text: self.text.clone() }
    }
}

impl PartialEq for Id48bit {
    fn eq(&self, other: &Self) -> (r: bool) {
        self.text == other.text
    }
}

impl vstd::std_specs::cmp::PartialEqSpecImpl for Id48bit {
    open spec fn obeys_eq_spec() -> bool {
        true
    }

    open spec fn eq_spec(&self, other: &Self) -> bool {
        self@ == other@
    }
}

impl KeyEq for Id48bit {
    fn key_eq(&self, other: &Self) -> (r: bool) {
        self.text == other.text
    }
}

impl Id48bit {
    pub fn generate() -> (r: Self)
        ensures
            exists|b: Seq<u8>| b.len() == 6 && r@ == base64_url(b),
    {
        let bytes = random_bytes(6);
        Id48bit { text: encode_base64_url(bytes.as_slice()) }
    }

    pub fn id_str(&self) -> (r: String)
        ensures
            r@ == self@,
    {
        self.text.clone()
    }
}

/// Values that name themselves with a string id.
pub trait IdString: Sized {
    spec fn id_view(&self) -> Seq<char>;

    fn id_str(self) -> (r: String)
        ensures
            r@ == self.id_view(),
    ;
}

} // verus!
