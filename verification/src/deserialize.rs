//! The decisions behind reading a multihash from its map form, a map with
//! the keys `codec` (the codec's name) and `hash` (the digest): each key may
//! come once, in either order, and both must come.

use vstd::prelude::*;
use crate::codec::CodecEntry;

verus! {

/// A key of the map form of a multihash.
#[derive(Clone, Copy, Debug, PartialEq, Eq, Structural)]
pub enum MultihashField {
    /// The `codec` key: the name of the hash algorithm's codec.
    Codec,
    /// The `hash` key: the digest.
    Hash,
}

/// Why the map form of a multihash was refused.
#[derive(Clone, Copy, Debug, PartialEq, Eq, Structural)]
pub enum FieldError {
    /// The key came a second time.
    DuplicateField(MultihashField),
    /// The key never came.
    MissingField(MultihashField),
    /// The `codec` value names no known codec.
    InvalidCodec,
}

/// What has been read so far: the codec and the digest, where they came.
pub type FieldsView = (Option<CodecEntry>, Option<Seq<u8>>);

/// The key's name as it is written in the map.
pub open spec fn field_name_text(field: MultihashField) -> Seq<char> {
    match field {
        MultihashField::Codec => "codec"@,
        MultihashField::Hash => "hash"@,
    }
}

/// Whether a key may come now: not when its value was read already.
pub open spec fn key_check(state: FieldsView, key: MultihashField) -> Result<(), FieldError> {
    match key {
        MultihashField::Codec => if state.0 is Some {
            Err(FieldError::DuplicateField(MultihashField::Codec))
        } else {
            Ok(())
        },
        MultihashField::Hash => if state.1 is Some {
            Err(FieldError::DuplicateField(MultihashField::Hash))
        } else {
            Ok(())
        },
    }
}

/// The state after the `codec` value, where `codec` is the codec that the
/// value names, or `None` when it names none.
pub open spec fn with_codec(state: FieldsView, codec: Option<CodecEntry>) -> Result<FieldsView, FieldError> {
    match codec {
        Some(c) => Ok((Some(c), state.1)),
        None => Err(FieldError::InvalidCodec),
    }
}

/// The state after the `hash` value.
pub open spec fn with_hash(state: FieldsView, hash: Seq<u8>) -> FieldsView {
    (state.0, Some(hash))
}

/// The multihash's parts once the map has ended, or the missing key (the
/// codec is looked for first).
pub open spec fn fields_result(state: FieldsView) -> Result<(CodecEntry, Seq<u8>), FieldError> {
    match state.0 {
        None => Err(FieldError::MissingField(MultihashField::Codec)),
        Some(c) => match state.1 {
            None => Err(FieldError::MissingField(MultihashField::Hash)),
            Some(h) => Ok((c, h)),
        },
    }
}

/// The message that refuses a map form for the reason `e`.
pub open spec fn field_error_text(e: FieldError) -> Seq<char> {
    match e {
        FieldError::DuplicateField(f) => "duplicate field `"@ + field_name_text(f) + "`"@,
        FieldError::MissingField(f) => "missing field `"@ + field_name_text(f) + "`"@,
        FieldError::InvalidCodec => "invalid multihash codec"@,
    }
}

/// The key's name as it is written in the map.
pub fn field_name(field: MultihashField) -> (name: &'static str)
    ensures
        name@ == field_name_text(field),
{
    match field {
        MultihashField::Codec => "codec",
        MultihashField::Hash => "hash",
    }
}

/// The message that refuses a map form for the reason `e`, such as
/// ``duplicate field `codec` `` or `invalid multihash codec`.
pub fn field_error_message(e: FieldError) -> (text: String)
    ensures
        text@ == field_error_text(e),
{
    match e {
        FieldError::DuplicateField(f) => {
            let mut s = String::from_str("duplicate field `");
            s.append(field_name(f));
            s.append("`");
            s
        },
        FieldError::MissingField(f) => {
            let mut s = String::from_str("missing field `");
            s.append(field_name(f));
            s.append("`");
            s
        },
        FieldError::InvalidCodec => String::from_str("invalid multihash codec"),
    }
}

/// The fields of a multihash read so far from its map form.
pub struct MultihashFields {
    codec: Option<CodecEntry>,
    hash: Option<Vec<u8>>,
}

impl View for MultihashFields {
    type V = FieldsView;

    closed spec fn view(&self) -> FieldsView {
        (
            self.codec,
            match self.hash {
                Some(h) => Some(h@),
                None => None,
            },
        )
    }
}

impl MultihashFields {
    /// Nothing read yet.
    pub fn new() -> (fields: Self)
        ensures
            fields@ == (None::<CodecEntry>, None::<Seq<u8>>),
    {
        MultihashFields { codec: None, hash: None }
    }

    /// Whether `key` may come now; a key whose value was read already is
    /// refused as a duplicate.
    pub fn check_key(&self, key: MultihashField) -> (r: Result<(), FieldError>)
        ensures
            r == key_check(self@, key),
    {
        match key {
            MultihashField::Codec => if self.codec.is_some() {
                Err(FieldError::DuplicateField(MultihashField::Codec))
            } else {
                Ok(())
            },
            MultihashField::Hash => if self.hash.is_some() {
                Err(FieldError::DuplicateField(MultihashField::Hash))
            } else {
                Ok(())
            },
        }
    }

    /// Takes the `codec` value: the codec that its name names, or `None`
    /// when the name is unknown, which is refused.
    pub fn accept_codec(&mut self, codec: Option<CodecEntry>) -> (r: Result<(), FieldError>)
        ensures
            match with_codec(old(self)@, codec) {
                Ok(s) => r is Ok && final(self)@ == s,
                Err(e) => r == Err::<(), FieldError>(e) && final(self)@ == old(self)@,
            },
            codec is None ==> r == Err::<(), FieldError>(FieldError::InvalidCodec) && final(self)@ == old(self)@,
            codec matches Some(c) ==> r is Ok && final(self)@ == (Some(c), old(self)@.1),
    {
        match codec {
            Some(c) => {
                self.codec = Some(c);
                Ok(())
            },
            None => Err(FieldError::InvalidCodec),
        }
    }

    /// Takes the `hash` value.
    pub fn accept_hash(&mut self, hash: Vec<u8>)
        ensures
            final(self)@ == with_hash(old(self)@, hash@),
    {
        self.hash = Some(hash);
    }

    /// The codec and the digest, once the map has ended; refused when a key
    /// never came.
    pub fn finish(self) -> (r: Result<(CodecEntry, Vec<u8>), FieldError>)
        ensures
            match fields_result(self@) {
                Ok((c, h)) => r matches Ok((rc, rh)) && rc == c && rh@ == h,
                Err(e) => r matches Err(re) && re == e,
            },
    {
        match self.codec {
            None => Err(FieldError::MissingField(MultihashField::Codec)),
            Some(c) => match self.hash {
                None => Err(FieldError::MissingField(MultihashField::Hash)),
                Some(h) => Ok((c, h)),
            },
        }
    }
}

/// Reading the two keys once each gives the same multihash in either order:
/// the codec and then the digest, or the digest and then the codec.
pub proof fn lemma_field_order_irrelevant(codec: CodecEntry, hash: Seq<u8>)
    ensures
        ({
            let empty: FieldsView = (None, None);
            &&& key_check(empty, MultihashField::Codec) is Ok
            &&& with_codec(empty, Some(codec)) matches Ok(s1)
                && key_check(s1, MultihashField::Hash) is Ok
                && fields_result(with_hash(s1, hash)) == Ok::<(CodecEntry, Seq<u8>), FieldError>((codec, hash))
            &&& key_check(empty, MultihashField::Hash) is Ok
            &&& key_check(with_hash(empty, hash), MultihashField::Codec) is Ok
            &&& with_codec(with_hash(empty, hash), Some(codec)) matches Ok(s2)
                && fields_result(s2) == Ok::<(CodecEntry, Seq<u8>), FieldError>((codec, hash))
        }),
{
}

/// A key is taken at most once: after its value was read, the key is
/// refused as a duplicate, whatever else was read.
pub proof fn lemma_second_key_refused(state: FieldsView, codec: CodecEntry, hash: Seq<u8>)
    ensures
        with_codec(state, Some(codec)) matches Ok(s)
            && key_check(s, MultihashField::Codec) == Err::<(), FieldError>(FieldError::DuplicateField(MultihashField::Codec)),
        key_check(with_hash(state, hash), MultihashField::Hash)
            == Err::<(), FieldError>(FieldError::DuplicateField(MultihashField::Hash)),
{
}

/// A codec value that names no codec is refused, whatever was read before,
/// and changes nothing; one that names a codec records exactly that codec
/// and keeps the digest read so far.
pub proof fn lemma_codec_value_outcome(state: FieldsView, codec: CodecEntry)
    ensures
        with_codec(state, None) == Err::<FieldsView, FieldError>(FieldError::InvalidCodec),
        with_codec(state, Some(codec)) == Ok::<FieldsView, FieldError>((Some(codec), state.1)),
        fields_result(state) is Ok ==> fields_result(state).unwrap().0 == state.0.unwrap(),
{
}

/// A map form lacking a key is refused, naming the codec first.
pub proof fn lemma_missing_key_refused(state: FieldsView)
    ensures
        state.0 is None ==> fields_result(state) == Err::<(CodecEntry, Seq<u8>), FieldError>(
            FieldError::MissingField(MultihashField::Codec),
        ),
        state.0 is Some && state.1 is None ==> fields_result(state) == Err::<(CodecEntry, Seq<u8>), FieldError>(
            FieldError::MissingField(MultihashField::Hash),
        ),
        fields_result(state) is Ok <==> (state.0 is Some && state.1 is Some),
{
}

} // verus!
