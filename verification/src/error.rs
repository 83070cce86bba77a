//! Errors produced by the library.

use vstd::prelude::*;
use crate::codec::{codec_debug_text, CodecEntry};
use crate::text::{decimal, push_decimal};

verus! {

/// Errors produced by the library. Each variant carries what is needed to
/// explain it.
#[derive(Debug)]
#[non_exhaustive]
pub enum Error {
    /// A failure reported by the multicodec layer, held as its message.
    Multicodec(String),
    /// A failure reported by the encoding utilities, held as its message.
    Multiutil(String),
    /// The builder was asked to build before a digest was given to it.
    MissingHash,
    /// The codec does not name a supported hash algorithm.
    UnsupportedHash {
        /// The codec that was requested.
        codec: CodecEntry,
    },
    /// The digest's length is not the algorithm's output size.
    InvalidDigestLength {
        /// The hash algorithm.
        algorithm: CodecEntry,
        /// The expected digest length in bytes.
        expected: usize,
        /// The digest length that was given.
        actual: usize,
    },
    /// Computing the hash failed.
    HashComputeFailed {
        /// The hash algorithm.
        algorithm: CodecEntry,
        /// What went wrong.
        message: String,
    },
}

/// The short identifier of an error's variant.
pub open spec fn kind_name(e: Error) -> Seq<char> {
    match e {
        Error::Multicodec(_) => "Multicodec"@,
        Error::Multiutil(_) => "Multiutil"@,
        Error::MissingHash => "MissingHash"@,
        Error::UnsupportedHash { .. } => "UnsupportedHash"@,
        Error::InvalidDigestLength { .. } => "InvalidDigestLength"@,
        Error::HashComputeFailed { .. } => "HashComputeFailed"@,
    }
}

/// The human-readable context of an error.
pub open spec fn context_text(e: Error) -> Seq<char> {
    match e {
        Error::Multicodec(m) => "Multicodec error: "@ + m@,
        Error::Multiutil(m) => "Multiutil error: "@ + m@,
        Error::MissingHash => "Missing hash data in builder"@,
        Error::UnsupportedHash { codec } => "Unsupported hash: "@ + codec_debug_text(codec),
        Error::InvalidDigestLength { algorithm, expected, actual } =>
            "Invalid digest length for "@ + codec_debug_text(algorithm) + ": expected "@
                + decimal(expected as nat) + ", got "@ + decimal(actual as nat),
        Error::HashComputeFailed { algorithm, message } =>
            "Hash computation failed for "@ + codec_debug_text(algorithm) + ": "@ + message@,
    }
}

/// The message that an error displays.
pub open spec fn message_text(e: Error) -> Seq<char> {
    match e {
        Error::Multicodec(m) => m@,
        Error::Multiutil(m) => m@,
        Error::MissingHash =>
            "Missing hash data\nThe multihash builder requires hash digest data.\nCall Builder::with_hash() before build()."@,
        Error::UnsupportedHash { codec } =>
            "Unsupported hash algorithm: "@ + codec_debug_text(codec) + "\nThe codec "@
                + codec_debug_text(codec)
                + " is not a supported cryptographic hash algorithm.\nSee HASH_CODECS or SAFE_HASH_CODECS for supported algorithms."@,
        Error::InvalidDigestLength { algorithm, expected, actual } =>
            "Invalid hash digest length for "@ + codec_debug_text(algorithm) + "\nExpected "@
                + decimal(expected as nat) + " bytes for "@ + codec_debug_text(algorithm)
                + ", but got "@ + decimal(actual as nat)
                + " bytes.\nEnsure the hash digest matches the algorithm's output size."@,
        Error::HashComputeFailed { algorithm, message } =>
            "Hash computation failed for "@ + codec_debug_text(algorithm) + ": "@ + message@,
    }
}

impl Error {
    /// An `UnsupportedHash` error for `codec`.
    pub fn unsupported_hash(codec: CodecEntry) -> (e: Self)
        ensures
            e == (Error::UnsupportedHash { codec }),
    {
        Error::UnsupportedHash { codec }
    }

    /// An `InvalidDigestLength` error: `algorithm` expects `expected` bytes
    /// and was given `actual`.
    pub fn invalid_digest_length(algorithm: CodecEntry, expected: usize, actual: usize) -> (e: Self)
        ensures
            e == (Error::InvalidDigestLength { algorithm, expected, actual }),
    {
        Error::InvalidDigestLength { algorithm, expected, actual }
    }

    /// A `HashComputeFailed` error for `algorithm` with the given message.
    pub fn hash_compute_failed(algorithm: CodecEntry, message: &str) -> (e: Self)
        ensures
            e matches Error::HashComputeFailed { algorithm: a, message: m } && a == algorithm
                && m@ == message@,
    {
        Error::HashComputeFailed { algorithm, message: String::from_str(message) }
    }

    /// The short identifier of the error's variant, such as `"MissingHash"`.
    pub fn kind(&self) -> (k: &'static str)
        ensures
            k@ == kind_name(*self),
    {
        match self {
            Error::Multicodec(_) => "Multicodec",
            Error::Multiutil(_) => "Multiutil",
            Error::MissingHash => "MissingHash",
            Error::UnsupportedHash { .. } => "UnsupportedHash",
            Error::InvalidDigestLength { .. } => "InvalidDigestLength",
            Error::HashComputeFailed { .. } => "HashComputeFailed",
        }
    }

    /// Human-readable context that helps diagnose the error.
    pub fn context(&self) -> (text: String)
        ensures
            text@ == context_text(*self),
    {
        match self {
            Error::Multicodec(m) => {
                let mut s = String::from_str("Multicodec error: ");
                s.append(m.as_str());
                s
            },
            Error::Multiutil(m) => {
                let mut s = String::from_str("Multiutil error: ");
                s.append(m.as_str());
                s
            },
            Error::MissingHash => String::from_str("Missing hash data in builder"),
            Error::UnsupportedHash { codec } => {
                let mut s = String::from_str("Unsupported hash: ");
                s.append(codec.debug_text().as_str());
                s
            },
            Error::InvalidDigestLength { algorithm, expected, actual } => {
                let mut s = String::from_str("Invalid digest length for ");
                s.append(algorithm.debug_text().as_str());
                s.append(": expected ");
                push_decimal(&mut s, *expected as u64);
                s.append(", got ");
                push_decimal(&mut s, *actual as u64);
                s
            },
            Error::HashComputeFailed { algorithm, message } => {
                let mut s = String::from_str("Hash computation failed for ");
                s.append(algorithm.debug_text().as_str());
                s.append(": ");
                s.append(message.as_str());
                s
            },
        }
    }

    /// The error's message, as it displays.
    pub fn to_string(&self) -> (text: String)
        ensures
            text@ == message_text(*self),
    {
        match self {
            Error::Multicodec(m) => String::from_str(m.as_str()),
            Error::Multiutil(m) => String::from_str(m.as_str()),
            Error::MissingHash => String::from_str(
                "Missing hash data\nThe multihash builder requires hash digest data.\nCall Builder::with_hash() before build().",
            ),
            Error::UnsupportedHash { codec } => {
                let d = codec.debug_text();
                let mut s = String::from_str("Unsupported hash algorithm: ");
                s.append(d.as_str());
                s.append("\nThe codec ");
                s.append(d.as_str());
                s.append(
                    " is not a supported cryptographic hash algorithm.\nSee HASH_CODECS or SAFE_HASH_CODECS for supported algorithms.",
                );
                s
            },
            Error::InvalidDigestLength { algorithm, expected, actual } => {
                let d = algorithm.debug_text();
                let mut s = String::from_str("Invalid hash digest length for ");
                s.append(d.as_str());
                s.append("\nExpected ");
                push_decimal(&mut s, *expected as u64);
                s.append(" bytes for ");
                s.append(d.as_str());
                s.append(", but got ");
                push_decimal(&mut s, *actual as u64);
                s.append(" bytes.\nEnsure the hash digest matches the algorithm's output size.");
                s
            },
            Error::HashComputeFailed { algorithm, message } => {
                let mut s = String::from_str("Hash computation failed for ");
                s.append(algorithm.debug_text().as_str());
                s.append(": ");
                s.append(message.as_str());
                s
            },
        }
    }
}

/// Whether two errors are of the same variant.
pub open spec fn same_variant(a: Error, b: Error) -> bool {
    ||| a is Multicodec && b is Multicodec
    ||| a is Multiutil && b is Multiutil
    ||| a is MissingHash && b is MissingHash
    ||| a is UnsupportedHash && b is UnsupportedHash
    ||| a is InvalidDigestLength && b is InvalidDigestLength
    ||| a is HashComputeFailed && b is HashComputeFailed
}

/// Each variant has a kind of its own: two errors have the same kind exactly
/// when they are of the same variant.
pub proof fn lemma_kind_identifies_variant(a: Error, b: Error)
    ensures
        (kind_name(a) == kind_name(b)) <==> same_variant(a, b),
{
    reveal_strlit("Multicodec");
    reveal_strlit("Multiutil");
    reveal_strlit("MissingHash");
    reveal_strlit("UnsupportedHash");
    reveal_strlit("InvalidDigestLength");
    reveal_strlit("HashComputeFailed");
    if kind_name(a) == kind_name(b) && !same_variant(a, b) {
        let ka = kind_name(a);
        let kb = kind_name(b);
        assert(ka.len() == kb.len());
        assert(ka[0] == kb[0]);
        assert(ka[1] == kb[1]);
        assert(ka[2] == kb[2]);
        assert(ka[5] == kb[5]);
    }
}

/// No error has an empty context or an empty kind, and only an error that
/// passes on another layer's message can have an empty message.
pub proof fn lemma_texts_not_empty(e: Error)
    ensures
        context_text(e).len() > 0,
        kind_name(e).len() > 0,
        !(e is Multicodec || e is Multiutil) ==> message_text(e).len() > 0,
{
    reveal_strlit("Missing hash data\nThe multihash builder requires hash digest data.\nCall Builder::with_hash() before build().");
    reveal_strlit("Unsupported hash algorithm: ");
    reveal_strlit("Invalid hash digest length for ");
    reveal_strlit("Multicodec error: ");
    reveal_strlit("Multiutil error: ");
    reveal_strlit("Missing hash data in builder");
    reveal_strlit("Unsupported hash: ");
    reveal_strlit("Invalid digest length for ");
    reveal_strlit("Hash computation failed for ");
    reveal_strlit("Multicodec");
    reveal_strlit("Multiutil");
    reveal_strlit("MissingHash");
    reveal_strlit("UnsupportedHash");
    reveal_strlit("InvalidDigestLength");
    reveal_strlit("HashComputeFailed");
}

/// Whether `part` occurs in `text` as a contiguous piece.
pub open spec fn occurs_in(part: Seq<char>, text: Seq<char>) -> bool {
    exists|i: int| 0 <= i && i + part.len() <= text.len() && #[trigger] text.subrange(i, i + part.len()) == part
}

/// The context and the message of a digest-length error both mention the
/// expected and the actual length in decimal.
pub proof fn lemma_digest_length_texts_mention_lengths(
    algorithm: CodecEntry,
    expected: usize,
    actual: usize,
)
    ensures
        occurs_in(decimal(expected as nat), context_text(Error::InvalidDigestLength { algorithm, expected, actual })),
        occurs_in(decimal(actual as nat), context_text(Error::InvalidDigestLength { algorithm, expected, actual })),
        occurs_in(decimal(expected as nat), message_text(Error::InvalidDigestLength { algorithm, expected, actual })),
        occurs_in(decimal(actual as nat), message_text(Error::InvalidDigestLength { algorithm, expected, actual })),
{
    let e = Error::InvalidDigestLength { algorithm, expected, actual };
    let d = codec_debug_text(algorithm);
    let de = decimal(expected as nat);
    let da = decimal(actual as nat);
    let c1 = "Invalid digest length for "@ + d + ": expected "@;
    let c2 = c1 + de + ", got "@;
    assert(context_text(e) == c2 + da);
    assert((c1 + de + ", got "@ + da).subrange(c1.len() as int, c1.len() + de.len() as int) =~= de);
    assert((c2 + da).subrange(c2.len() as int, c2.len() + da.len() as int) =~= da);
    let m1 = "Invalid hash digest length for "@ + d + "\nExpected "@;
    let m2 = m1 + de + " bytes for "@ + d + ", but got "@;
    let tail = " bytes.\nEnsure the hash digest matches the algorithm's output size."@;
    assert(message_text(e) == m2 + da + tail);
    assert((m2 + da + tail).subrange(m1.len() as int, m1.len() + de.len() as int) =~= de);
    assert((m2 + da + tail).subrange(m2.len() as int, m2.len() + da.len() as int) =~= da);
}

} // verus!
