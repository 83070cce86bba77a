# multi_hash_verified

Self-describing hash digest components, verified with Verus.

- `src/types.rs`: `HashDigest` (a byte string with a type of its own, shown
  as lowercase hex) and `AlgorithmId` (a codec that names a hash algorithm).
- `src/codec.rs`: `CodecEntry`, a multicodec table entry held as plain values
  (code and canonical name), and its debugging text `name (0xcode)`.
- `src/error.rs`: the error type, its kinds, context and messages.
- `src/deserialize.rs`: the decisions behind reading the map form
  `{codec, hash}` of a multihash.
- `src/text.rs`: decimal and hexadecimal rendering.
- `app/lib.rs`: conversions to and from `multi_codec::Codec`, the error type
  with `std::error::Error`, and the serde visitor that drives
  `deserialize::MultihashFields`.
