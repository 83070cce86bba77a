//! Type-safe wrappers for multihash components.

use vstd::prelude::*;
use vstd::std_specs::convert::{FromSpec, FromSpecImpl};
use crate::codec::CodecEntry;
use crate::text::{hex_bytes, hex_encode, lemma_hex_bytes_injective, lemma_hex_bytes_len};

verus! {

/// A cryptographic hash digest: a byte string kept apart from other byte
/// strings by its type. Digests are equal when their bytes are, and ordered
/// as their bytes are, lexicographically (see `digest_order`).
#[derive(Clone, Debug, Eq, Hash, Ord)]
pub struct HashDigest(Vec<u8>);

impl View for HashDigest {
    type V = Seq<u8>;

    closed spec fn view(&self) -> Seq<u8> {
        self.0@
    }
}

impl HashDigest {
    /// Wraps `bytes` as a digest.
    pub fn new(bytes: Vec<u8>) -> (digest: Self)
        ensures
            digest@ == bytes@,
    {
        HashDigest(bytes)
    }

    /// The digest's bytes.
    pub fn as_bytes(&self) -> (bytes: &[u8])
        ensures
            bytes@ == self@,
    {
        self.0.as_slice()
    }

    /// The number of bytes in the digest.
    pub fn len(&self) -> (n: usize)
        ensures
            n == self@.len(),
    {
        self.0.len()
    }

    /// Whether the digest holds no bytes.
    pub fn is_empty(&self) -> (empty: bool)
        ensures
            empty == (self@.len() == 0),
    {
        self.0.len() == 0
    }

    /// Gives back the digest's bytes.
    pub fn into_bytes(self) -> (bytes: Vec<u8>)
        ensures
            bytes@ == self@,
    {
        self.0
    }

    /// The digest as lowercase hexadecimal text, two characters per byte.
    pub fn to_string(&self) -> (text: String)
        ensures
            text@ == hex_bytes(self@),
    {
        hex_encode(self.0.as_slice())
    }
}

/// A digest's text is twice as long as the digest, and tells digests
/// apart: two digests with the same text hold the same bytes.
pub proof fn lemma_digest_text_faithful(a: HashDigest, b: HashDigest)
    ensures
        hex_bytes(a@).len() == 2 * a@.len(),
        hex_bytes(a@) == hex_bytes(b@) ==> a@ == b@,
{
    lemma_hex_bytes_len(a@);
    if hex_bytes(a@) == hex_bytes(b@) {
        lemma_hex_bytes_injective(a@, b@);
    }
}

impl From<Vec<u8>> for HashDigest {
    fn from(bytes: Vec<u8>) -> (digest: Self) {
        HashDigest(bytes)
    }
}

impl FromSpecImpl<Vec<u8>> for HashDigest {
    open spec fn obeys_from_spec() -> bool {
        true
    }

    closed spec fn from_spec(v: Vec<u8>) -> HashDigest {
        HashDigest(v)
    }
}

/// Converting a byte vector into a digest keeps its bytes.
pub proof fn lemma_digest_from_bytes(bytes: Vec<u8>)
    ensures
        <HashDigest as FromSpec<Vec<u8>>>::from_spec(bytes)@ == bytes@,
{
}

impl From<HashDigest> for Vec<u8> {
    fn from(digest: HashDigest) -> (bytes: Vec<u8>) {
        digest.0
    }
}

impl FromSpecImpl<HashDigest> for Vec<u8> {
    open spec fn obeys_from_spec() -> bool {
        true
    }

    closed spec fn from_spec(digest: HashDigest) -> Vec<u8> {
        digest.0
    }
}

/// Converting a digest into a byte vector gives back its bytes.
pub proof fn lemma_bytes_from_digest(digest: HashDigest)
    ensures
        <Vec<u8> as FromSpec<HashDigest>>::from_spec(digest)@ == digest@,
{
}

/// Converting bytes into a digest and back gives the same bytes.
pub proof fn lemma_digest_bytes_roundtrip(bytes: Vec<u8>)
    ensures
        <Vec<u8> as FromSpec<HashDigest>>::from_spec(
            <HashDigest as FromSpec<Vec<u8>>>::from_spec(bytes),
        ) == bytes,
{
}

impl AsRef<[u8]> for HashDigest {
    fn as_ref(&self) -> (bytes: &[u8])
        ensures
            bytes@ == self@,
    {
        self.0.as_slice()
    }
}

/// A hash algorithm identifier: a codec, marked by its type as the one
/// that names a hash algorithm. Identifiers are equal, ordered and hashed
/// as their codec entries are (by code, then by name).
#[derive(Clone, Copy, Debug, Eq, Hash, Ord, PartialEq, PartialOrd)]
pub struct AlgorithmId(CodecEntry);

impl View for AlgorithmId {
    type V = CodecEntry;

    closed spec fn view(&self) -> CodecEntry {
        self.0
    }
}

impl AlgorithmId {
    /// The identifier of the algorithm that `codec` names.
    pub fn new(codec: CodecEntry) -> (algo: Self)
        ensures
            algo@ == codec,
    {
        AlgorithmId(codec)
    }

    /// The underlying codec.
    pub fn codec(self) -> (codec: CodecEntry)
        ensures
            codec == self@,
    {
        self.0
    }

    /// The codec's multicodec code.
    pub fn code(self) -> (code: u64)
        ensures
            code == self@.code,
    {
        self.0.code
    }

    /// The codec's canonical name.
    pub fn name(self) -> (name: &'static str)
        ensures
            name == self@.name,
    {
        self.0.name
    }

    /// The algorithm as text: the codec's canonical name.
    pub fn to_string(&self) -> (text: String)
        ensures
            text@ == self@.name@,
    {
        String::from_str(self.0.name)
    }
}

impl From<CodecEntry> for AlgorithmId {
    fn from(codec: CodecEntry) -> (algo: Self) {
        AlgorithmId(codec)
    }
}

impl FromSpecImpl<CodecEntry> for AlgorithmId {
    open spec fn obeys_from_spec() -> bool {
        true
    }

    closed spec fn from_spec(codec: CodecEntry) -> AlgorithmId {
        AlgorithmId(codec)
    }
}

impl From<AlgorithmId> for CodecEntry {
    fn from(algo: AlgorithmId) -> (codec: CodecEntry) {
        algo.0
    }
}

impl FromSpecImpl<AlgorithmId> for CodecEntry {
    open spec fn obeys_from_spec() -> bool {
        true
    }

    closed spec fn from_spec(algo: AlgorithmId) -> CodecEntry {
        algo.0
    }
}

/// An algorithm identifier is its codec entry: identifiers with the same
/// entry are the same identifier.
pub proof fn lemma_algorithm_determined_by_codec(a: AlgorithmId, b: AlgorithmId)
    ensures
        (a@ == b@) <==> (a == b),
{
}

/// Converting a codec into an algorithm identifier keeps the codec.
pub proof fn lemma_algorithm_from_codec(codec: CodecEntry)
    ensures
        <AlgorithmId as FromSpec<CodecEntry>>::from_spec(codec)@ == codec,
{
}

/// Converting a codec into an algorithm identifier and back gives the same
/// codec.
pub proof fn lemma_algorithm_codec_roundtrip(codec: CodecEntry)
    ensures
        <CodecEntry as FromSpec<AlgorithmId>>::from_spec(
            <AlgorithmId as FromSpec<CodecEntry>>::from_spec(codec),
        ) == codec,
{
}

} // verus!
