//! Discriminator dispatch and error reporting at the document root.

use card_codec::dec_card::{decode_card, decode_cards};
use card_codec::doc::Doc;
use card_codec::err::{display, ErrKind, PathStep};

#[test]
fn root_must_be_a_list() {
    let err = decode_cards(&Doc::Null).unwrap_err();
    assert_eq!(err.kind, ErrKind::TypeMismatch);
}

#[test]
fn unknown_top_level_variant_is_rejected() {
    let doc = Doc::Object(vec![(
        "card_type".to_owned(),
        Doc::Text("UNKNOWN".to_owned()),
    )]);
    let err = decode_card(&doc).unwrap_err();
    assert_eq!(err.kind, ErrKind::UnknownVariant);
    assert_eq!(err.path, vec![PathStep::Key("card_type".to_owned())]);
}

#[test]
fn missing_discriminator_is_missing_field() {
    let doc = Doc::Object(vec![("name".to_owned(), Doc::Text("A".to_owned()))]);
    let err = decode_card(&doc).unwrap_err();
    assert_eq!(err.kind, ErrKind::MissingField);
}

#[test]
fn creature_tag_routes_to_creature_shape() {
    // The POKEMON tag reaches the creature decoder, which then misses its
    // required fields, rather than failing as an unknown variant.
    let doc = Doc::Object(vec![(
        "card_type".to_owned(),
        Doc::Text("POKEMON".to_owned()),
    )]);
    let err = decode_card(&doc).unwrap_err();
    assert_eq!(err.kind, ErrKind::MissingField);
}

#[test]
fn errors_carry_a_path_and_render() {
    let doc = Doc::List(vec![Doc::Object(vec![(
        "card_type".to_owned(),
        Doc::Text("UNKNOWN".to_owned()),
    )])]);
    let err = decode_cards(&doc).unwrap_err();
    assert_eq!(err.kind, ErrKind::UnknownVariant);
    assert_eq!(
        err.path,
        vec![PathStep::Index(0), PathStep::Key("card_type".to_owned())]
    );
    assert_eq!(display(&err), "unknown variant at $[0].card_type");
}
