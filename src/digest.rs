//! SHA-256 content digests, in one shot or fed incrementally, rendered as
//! lowercase hexadecimal.

use sha2::Digest;
use sha2::Sha256;
use vstd::prelude::*;

verus! {

/// A running SHA-256 computation. The hasher is kept out of Verus's sight;
/// what it has been fed is named by `absorbed`.
#[verifier::external_body]
pub struct Sha256State {
    inner: Sha256,
}

/// The SHA-256 digest (32 bytes) of a message.
pub uninterp spec fn sha256_of(message: Seq<u8>) -> Seq<u8>;

/// The message that a SHA-256 hasher has been fed so far.
pub uninterp spec fn absorbed(hasher: Sha256State) -> Seq<u8>;

/// Relies on `<Sha256 as Digest>::new`: a fresh hasher has been fed nothing.
#[verifier::external_body]
fn sha256_new() -> (r: Sha256State)
    ensures
        absorbed(r) == Seq::<u8>::empty(),
{
    Sha256State { inner: <Sha256 as Digest>::new() }
}

/// Relies on `Digest::update`: the bytes are appended to the message fed so far.
#[verifier::external_body]
fn sha256_update(hasher: &mut Sha256State, data: &[u8])
    ensures
        absorbed(*final(hasher)) == absorbed(*old(hasher)) + data@,
{
    hasher.inner.update(data);
}

/// Relies on `Digest::finalize`: the 32-byte SHA-256 digest of the message fed.
#[verifier::external_body]
fn sha256_finalize(hasher: Sha256State) -> (r: Vec<u8>)
    ensures
        r@ == sha256_of(absorbed(hasher)),
        r@.len() == 32,
{
    hasher.inner.finalize().to_vec()
}

/// The lowercase hexadecimal digit for a value below 16.
pub open spec fn hex_digit(n: u8) -> char
    recommends
        n < 16,
{
    seq!['0', '1', '2', '3', '4', '5', '6', '7', '8', '9', 'a', 'b', 'c', 'd', 'e', 'f'][n as int]
}

/// Lowercase hexadecimal rendering: two digits per byte, high nibble first.
pub open spec fn hex_lower(bytes: Seq<u8>) -> Seq<char>
    decreases bytes.len(),
{
    if bytes.len() == 0 {
        Seq::empty()
    } else {
        hex_lower(bytes.drop_last()) + seq![
            hex_digit(bytes.last() / 16),
            hex_digit(bytes.last() % 16),
        ]
    }
}

/// The identity of a blob: the lowercase-hex SHA-256 digest of its content.
pub open spec fn content_hash(content: Seq<u8>) -> Seq<char> {
    hex_lower(sha256_of(content))
}

/// Relies on `hex::encode`: two lowercase hex digits per byte, high nibble first.
#[verifier::external_body]
fn hex_encode(bytes: &[u8]) -> (r: String)
    ensures
        r@ == hex_lower(bytes@),
{
    hex::encode(bytes)
}

/// An in-progress digest: chunks are folded in, in order, and the digest of
/// their concatenation is read out at the end.
pub struct Digester {
    state: Sha256State,
}

impl View for Digester {
    type V = Seq<u8>;

    /// Every byte folded in so far, in order.
    closed spec fn view(&self) -> Seq<u8> {
        absorbed(self.state)
    }
}

impl Digester {
    pub fn new() -> (r: Self)
        ensures
            r@ == Seq::<u8>::empty(),
    {
        Digester { state: sha256_new() }
    }

    pub fn update(&mut self, chunk: &[u8])
        ensures
            final(self)@ == old(self)@ + chunk@,
    {
        sha256_update(&mut self.state, chunk);
    }

    /// The lowercase-hex digest of everything folded in.
    pub fn finalize_hex(self) -> (r: String)
        ensures
            r@ == content_hash(self@),
    {
        let raw = sha256_finalize(self.state);
        hex_encode(raw.as_slice())
    }
}

/// The lowercase-hex SHA-256 digest of `data`, the key a blob is stored under.
pub fn digest_hex(data: &[u8]) -> (r: String)
    ensures
        r@ == content_hash(data@),
{
    let mut digester = Digester::new();
    digester.update(data);
    proof {
        assert(digester@ =~= data@);
    }
    digester.finalize_hex()
}

} // verus!
