//! Incremental SHA-512 digests in lowercase hexadecimal.
use vstd::prelude::*;

verus! {

/// The bytes fed so far into a hashing stream.
pub uninterp spec fn sha512_input(s: Sha512Stream) -> Seq<u8>;

/// The lowercase hexadecimal SHA-512 digest of a byte sequence.
pub uninterp spec fn sha512_hex(data: Seq<u8>) -> Seq<char>;

/// A SHA-512 computation that takes its input piece by piece, so that a large
/// file never has to be held in memory.
#[verifier::external_body]
pub struct Sha512Stream {
    hasher: sha2::Sha512,
}

/// Relies on sha2's `Digest::new` for `Sha512`: a hasher that has taken no input.
#[verifier::external_body]
fn sha512_start() -> (r: Sha512Stream)
    ensures
        sha512_input(r) == Seq::<u8>::empty(),
{
    Sha512Stream { hasher: <sha2::Sha512 as sha2::Digest>::new() }
}

/// Relies on sha2's `Digest::update` for `Sha512`: the chunk is appended to
/// the input taken so far.
#[verifier::external_body]
fn sha512_feed(s: &mut Sha512Stream, chunk: &[u8])
    ensures
        sha512_input(*final(s)) == sha512_input(*old(s)) + chunk@,
{
    sha2::Digest::update(&mut s.hasher, chunk)
}

/// Relies on sha2's `Digest::finalize` for `Sha512`, printed through the
/// `LowerHex` impl of its 64-byte output: two lowercase digits per byte.
#[verifier::external_body]
fn sha512_finish(s: Sha512Stream) -> (r: String)
    ensures
        r@ == sha512_hex(sha512_input(s)),
        r@.len() == 128,
{
    format!("{:x}", sha2::Digest::finalize(s.hasher))
}

impl Sha512Stream {
    /// A stream that has taken no input yet.
    pub fn new() -> (r: Sha512Stream)
        ensures
            sha512_input(r) == Seq::<u8>::empty(),
    {
        sha512_start()
    }

    /// Feeds the next chunk of input.
    pub fn update(&mut self, chunk: &[u8])
        ensures
            sha512_input(*final(self)) == sha512_input(*old(self)) + chunk@,
    {
        sha512_feed(self, chunk)
    }

    /// The digest of everything fed, as 128 lowercase hexadecimal digits.
    pub fn finish(self) -> (r: String)
        ensures
            r@ == sha512_hex(sha512_input(self)),
            r@.len() == 128,
    {
        sha512_finish(self)
    }
}

/// The hexadecimal SHA-512 digest of a byte slice held in memory.
pub fn sha512_hex_of(data: &[u8]) -> (r: String)
    ensures
        r@ == sha512_hex(data@),
        r@.len() == 128,
{
    let mut s = Sha512Stream::new();
    s.update(data);
    assert(Seq::<u8>::empty() + data@ =~= data@);
    s.finish()
}

} // verus!
