use multi_hash_verified::deserialize::{
    field_error_message, field_name, FieldError, MultihashField, MultihashFields,
};
use multi_hash_verified::CodecEntry;

fn sha2_256() -> CodecEntry {
    CodecEntry::new(0x12, "sha2-256")
}

#[test]
fn codec_then_hash() {
    let mut fields = MultihashFields::new();
    assert_eq!(fields.check_key(MultihashField::Codec), Ok(()));
    assert_eq!(fields.accept_codec(Some(sha2_256())), Ok(()));
    assert_eq!(fields.check_key(MultihashField::Hash), Ok(()));
    fields.accept_hash(vec![1, 2, 3]);
    assert_eq!(fields.finish(), Ok((sha2_256(), vec![1, 2, 3])));
}

#[test]
fn hash_then_codec() {
    let mut fields = MultihashFields::new();
    assert_eq!(fields.check_key(MultihashField::Hash), Ok(()));
    fields.accept_hash(vec![1, 2, 3]);
    assert_eq!(fields.check_key(MultihashField::Codec), Ok(()));
    assert_eq!(fields.accept_codec(Some(sha2_256())), Ok(()));
    assert_eq!(fields.finish(), Ok((sha2_256(), vec![1, 2, 3])));
}

#[test]
fn duplicate_keys_refused() {
    let mut fields = MultihashFields::new();
    assert_eq!(fields.accept_codec(Some(sha2_256())), Ok(()));
    assert_eq!(
        fields.check_key(MultihashField::Codec),
        Err(FieldError::DuplicateField(MultihashField::Codec))
    );
    fields.accept_hash(vec![]);
    assert_eq!(
        fields.check_key(MultihashField::Hash),
        Err(FieldError::DuplicateField(MultihashField::Hash))
    );
}

#[test]
fn missing_keys_refused() {
    assert_eq!(
        MultihashFields::new().finish(),
        Err(FieldError::MissingField(MultihashField::Codec))
    );
    let mut only_hash = MultihashFields::new();
    only_hash.accept_hash(vec![7]);
    assert_eq!(only_hash.finish(), Err(FieldError::MissingField(MultihashField::Codec)));
    let mut only_codec = MultihashFields::new();
    assert_eq!(only_codec.accept_codec(Some(sha2_256())), Ok(()));
    assert_eq!(only_codec.finish(), Err(FieldError::MissingField(MultihashField::Hash)));
}

#[test]
fn unknown_codec_refused_and_state_kept() {
    let mut fields = MultihashFields::new();
    assert_eq!(fields.accept_codec(None), Err(FieldError::InvalidCodec));
    assert_eq!(fields.check_key(MultihashField::Codec), Ok(()));
    fields.accept_hash(vec![1]);
    assert_eq!(fields.finish(), Err(FieldError::MissingField(MultihashField::Codec)));
}

#[test]
fn empty_digest_is_accepted() {
    let mut fields = MultihashFields::new();
    assert_eq!(fields.accept_codec(Some(sha2_256())), Ok(()));
    fields.accept_hash(vec![]);
    assert_eq!(fields.finish(), Ok((sha2_256(), vec![])));
}

#[test]
fn field_names() {
    assert_eq!(field_name(MultihashField::Codec), "codec");
    assert_eq!(field_name(MultihashField::Hash), "hash");
}

#[test]
fn refusal_messages() {
    assert_eq!(
        field_error_message(FieldError::DuplicateField(MultihashField::Codec)),
        "duplicate field `codec`"
    );
    assert_eq!(
        field_error_message(FieldError::DuplicateField(MultihashField::Hash)),
        "duplicate field `hash`"
    );
    assert_eq!(
        field_error_message(FieldError::MissingField(MultihashField::Codec)),
        "missing field `codec`"
    );
    assert_eq!(
        field_error_message(FieldError::MissingField(MultihashField::Hash)),
        "missing field `hash`"
    );
    assert_eq!(field_error_message(FieldError::InvalidCodec), "invalid multihash codec");
}
