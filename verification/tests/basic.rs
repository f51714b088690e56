use zotero_items::json::JsonValue;
use zotero_items::model::{Content, Creator, DecodeError, Item, ItemType, Name, Relation};
use zotero_items::decode::{decode_content, decode_item};
use zotero_items::encode::{encode_content, encode_item};
use zotero_items::locale::display_name;
use zotero_items::registry::{item_type_from_tag, schema, type_tag, FieldKind};
use zotero_items::digits::{parse_u16_dec, parse_u64_dec, u64_to_dec};

fn s(t: &str) -> String {
    t.to_string()
}

fn obj(entries: Vec<(&str, JsonValue)>) -> JsonValue {
    JsonValue::Obj(entries.into_iter().map(|(n, v)| (s(n), v)).collect())
}

fn jstr(t: &str) -> JsonValue {
    JsonValue::Str(s(t))
}

#[test]
fn it_works() {
    assert_eq!(2 + 2, 4);
}

#[test]
fn dune_book_decodes() {
    let v = obj(vec![
        ("itemType", jstr("book")),
        ("title", jstr("Dune")),
        (
            "creators",
            JsonValue::Arr(vec![obj(vec![
                ("creatorType", jstr("author")),
                ("firstName", jstr("Frank")),
                ("lastName", jstr("Herbert")),
            ])]),
        ),
        ("numberOfVolumes", jstr("0")),
    ]);
    let c = decode_content(v).expect("decode should succeed");
    match c {
        Content::Book(b) => {
            assert_eq!(b.title, "Dune");
            assert_eq!(b.bookish.number_of_volumes, 0);
            assert_eq!(b.creators.len(), 1);
            match &b.creators[0] {
                Creator::Author(Name::Split { first, last }) => {
                    assert_eq!(first.as_deref(), Some("Frank"));
                    assert_eq!(last.as_deref(), Some("Herbert"));
                }
                other => panic!("unexpected creator: {other:?}"),
            }
        }
        other => panic!("expected a Book, got {other:?}"),
    }
}

#[test]
fn unknown_item_type_is_rejected() {
    let v = obj(vec![("itemType", jstr("holodeckProgram")), ("title", jstr("x"))]);
    assert_eq!(decode_content(v), Err(DecodeError::UnknownItemType));
}

#[test]
fn book_missing_title_is_rejected() {
    let v = obj(vec![("itemType", jstr("book")), ("numberOfVolumes", jstr("1"))]);
    assert_eq!(
        decode_content(v),
        Err(DecodeError::MissingRequiredField(s("title")))
    );
}

#[test]
fn unknown_creator_role_decodes_as_raw() {
    let v = obj(vec![
        ("itemType", jstr("book")),
        ("title", jstr("T")),
        ("numberOfVolumes", jstr("1")),
        (
            "creators",
            JsonValue::Arr(vec![obj(vec![
                ("creatorType", jstr("illustrator")),
                ("lastName", jstr("Moebius")),
            ])]),
        ),
    ]);
    let c = decode_content(v).expect("decode should succeed despite unknown role");
    match c {
        Content::Book(b) => match &b.creators[0] {
            Creator::Raw { role, name } => {
                assert_eq!(role, "illustrator");
                assert_eq!(
                    name,
                    &Name::Split {
                        first: None,
                        last: Some(s("Moebius"))
                    }
                );
            }
            other => panic!("expected a raw creator, got {other:?}"),
        },
        other => panic!("expected a Book, got {other:?}"),
    }
}

#[test]
fn display_name_localizes_and_falls_back() {
    assert_eq!(display_name(ItemType::Book, "fr"), "Livre");
    assert_eq!(display_name(ItemType::Book, "xx-unsupported"), "Book");
    assert_eq!(display_name(ItemType::Webpage, "en-US"), "Web Page");
}

#[test]
fn localized_uses_the_item_type() {
    let v = obj(vec![
        ("itemType", jstr("book")),
        ("key", jstr("K1")),
        ("version", jstr("3")),
        ("libraryId", jstr("7")),
        ("title", jstr("Dune")),
        ("numberOfVolumes", jstr("1")),
    ]);
    let item = decode_item(v).expect("decode should succeed");
    assert_eq!(item.localized("fr"), "Livre");
    assert_eq!(item.localized("de"), "Book");
}

#[test]
fn item_metadata_is_required() {
    let base = |extra: Vec<(&str, JsonValue)>| {
        let mut entries = vec![
            ("itemType", jstr("webpage")),
        ];
        entries.extend(extra);
        obj(entries)
    };
    assert_eq!(
        decode_item(base(vec![])),
        Err(DecodeError::MissingRequiredField(s("key")))
    );
    assert_eq!(
        decode_item(base(vec![("key", jstr("K"))])),
        Err(DecodeError::MissingRequiredField(s("version")))
    );
    assert_eq!(
        decode_item(base(vec![("key", jstr("K")), ("version", jstr("2"))])),
        Err(DecodeError::MissingRequiredField(s("libraryId")))
    );
    let item = decode_item(base(vec![
        ("key", jstr("K")),
        ("version", jstr("2")),
        ("libraryId", jstr("9")),
    ]))
    .expect("complete envelope should decode");
    assert_eq!(item.key, "K");
    assert_eq!(item.version, 2);
    assert_eq!(item.library_id, 9);
    assert_eq!(item.content.item_type(), ItemType::Webpage);
}

#[test]
fn invalid_field_values_are_reported() {
    let v = obj(vec![
        ("itemType", jstr("book")),
        ("title", JsonValue::Arr(vec![])),
    ]);
    assert_eq!(
        decode_content(v),
        Err(DecodeError::InvalidFieldValue(s("title"), s("expected string")))
    );
    let v = obj(vec![
        ("itemType", jstr("book")),
        ("title", jstr("T")),
        ("numberOfVolumes", jstr("many")),
    ]);
    assert_eq!(
        decode_content(v),
        Err(DecodeError::InvalidFieldValue(
            s("numberOfVolumes"),
            s("expected a decimal number")
        ))
    );
    let v = obj(vec![("itemType", jstr("book")), ("creators", jstr("nope"))]);
    assert_eq!(
        decode_content(v),
        Err(DecodeError::InvalidFieldValue(s("creators"), s("expected array")))
    );
    assert_eq!(
        decode_content(jstr("not an object")),
        Err(DecodeError::InvalidFieldValue(s("item"), s("expected object")))
    );
}

#[test]
fn unknown_fields_go_to_the_pocket() {
    let v = obj(vec![
        ("itemType", jstr("webpage")),
        ("title", jstr("T")),
        ("futureField", jstr("kept")),
        ("artworkMedium", jstr("oil")),
    ]);
    match decode_content(v).expect("decode should succeed") {
        Content::Webpage(g) => {
            // artworkMedium is not in the webpage schema: preserved, not dropped.
            assert_eq!(g.common.unknown.len(), 2);
            assert_eq!(g.common.unknown[0].0, "futureField");
            assert_eq!(g.common.unknown[1].0, "artworkMedium");
        }
        other => panic!("expected a Webpage, got {other:?}"),
    }
}

#[test]
fn relations_accept_string_or_array() {
    let v = obj(vec![
        ("itemType", jstr("webpage")),
        (
            "relations",
            obj(vec![
                ("dc:relation", jstr("http://zotero.org/users/1/items/A")),
                (
                    "owl:sameAs",
                    JsonValue::Arr(vec![jstr("u1"), jstr("u2")]),
                ),
            ]),
        ),
    ]);
    match decode_content(v).expect("decode should succeed") {
        Content::Webpage(g) => {
            assert_eq!(
                g.common.relations,
                vec![
                    Relation {
                        predicate: s("dc:relation"),
                        values: vec![s("http://zotero.org/users/1/items/A")]
                    },
                    Relation {
                        predicate: s("owl:sameAs"),
                        values: vec![s("u1"), s("u2")]
                    },
                ]
            );
        }
        other => panic!("expected a Webpage, got {other:?}"),
    }
}

#[test]
fn minimal_objects_decode_for_every_variant() {
    for tag in [
        "artwork",
        "audioRecording",
        "bill",
        "blogPost",
        "book",
        "bookSection",
        "case",
        "computerProgram",
        "conferencePaper",
        "dictionaryEntry",
        "document",
        "email",
        "encyclopediaArticle",
        "film",
        "forumPost",
        "hearing",
        "instantMessage",
        "interview",
        "journalArticle",
        "letter",
        "magazineArticle",
        "manuscript",
        "map",
        "newspaperArticle",
        "note",
        "patent",
        "podcast",
        "presentation",
        "radioBroadcast",
        "report",
        "statute",
        "tvBroadcast",
        "thesis",
        "videoRecording",
        "webpage",
    ] {
        let t = item_type_from_tag(tag).expect("tag should be registered");
        let mut entries = vec![("itemType", jstr(tag))];
        for d in schema(t) {
            if d.required {
                let value = match d.kind {
                    FieldKind::Number => jstr("1"),
                    _ => jstr("required"),
                };
                entries.push((Box::leak(d.name.into_boxed_str()), value));
            }
        }
        let c = decode_content(obj(entries)).expect("minimal object should decode");
        assert_eq!(c.item_type(), t, "variant mismatch for tag {tag}");
        assert_eq!(type_tag(t), tag);
    }
}

#[test]
fn round_trip_preserves_every_field() {
    let v = obj(vec![
        ("itemType", jstr("book")),
        ("key", jstr("ABCD2345")),
        ("version", jstr("42")),
        ("libraryId", jstr("7")),
        ("title", jstr("Dune")),
        (
            "creators",
            JsonValue::Arr(vec![
                obj(vec![
                    ("creatorType", jstr("author")),
                    ("firstName", jstr("Frank")),
                    ("lastName", jstr("Herbert")),
                ]),
                obj(vec![
                    ("creatorType", jstr("illustrator")),
                    ("name", jstr("Studio X")),
                ]),
            ]),
        ),
        ("numberOfVolumes", jstr("3")),
        ("numPages", jstr("412")),
        ("ISBN", jstr("978-0441013593")),
        ("abstractNote", jstr("Sand.")),
        ("date", jstr("1965")),
        ("url", jstr("https://example.org/dune")),
        ("accessDate", jstr("2024-01-02T03:04:05Z")),
        ("tags", JsonValue::Arr(vec![jstr("sf"), jstr("classic"), jstr("sf")])),
        ("collections", JsonValue::Arr(vec![jstr("C1"), jstr("C2")])),
        (
            "relations",
            obj(vec![("dc:relation", JsonValue::Arr(vec![jstr("u1"), jstr("u2")]))]),
        ),
        ("futureField", obj(vec![("nested", jstr("kept"))])),
    ]);
    let item: Item = decode_item(v).expect("decode should succeed");
    let encoded = encode_item(item);
    let again: Item = decode_item(encoded).expect("re-decode should succeed");
    // Decode the same input once more for a field-by-field comparison.
    let v2 = obj(vec![
        ("itemType", jstr("book")),
        ("key", jstr("ABCD2345")),
        ("version", jstr("42")),
        ("libraryId", jstr("7")),
        ("title", jstr("Dune")),
        (
            "creators",
            JsonValue::Arr(vec![
                obj(vec![
                    ("creatorType", jstr("author")),
                    ("firstName", jstr("Frank")),
                    ("lastName", jstr("Herbert")),
                ]),
                obj(vec![
                    ("creatorType", jstr("illustrator")),
                    ("name", jstr("Studio X")),
                ]),
            ]),
        ),
        ("numberOfVolumes", jstr("3")),
        ("numPages", jstr("412")),
        ("ISBN", jstr("978-0441013593")),
        ("abstractNote", jstr("Sand.")),
        ("date", jstr("1965")),
        ("url", jstr("https://example.org/dune")),
        ("accessDate", jstr("2024-01-02T03:04:05Z")),
        ("tags", JsonValue::Arr(vec![jstr("sf"), jstr("classic"), jstr("sf")])),
        ("collections", JsonValue::Arr(vec![jstr("C1"), jstr("C2")])),
        (
            "relations",
            obj(vec![("dc:relation", JsonValue::Arr(vec![jstr("u1"), jstr("u2")]))]),
        ),
        ("futureField", obj(vec![("nested", jstr("kept"))])),
    ]);
    let reference: Item = decode_item(v2).expect("decode should succeed");
    assert_eq!(again, reference);
}

#[test]
fn round_trip_content_with_unknown_fields() {
    let v = obj(vec![
        ("itemType", jstr("artwork")),
        ("title", jstr("Nighthawks")),
        ("artworkMedium", jstr("oil on canvas")),
        ("mysteryField", JsonValue::Arr(vec![jstr("a"), jstr("b")])),
    ]);
    let c = decode_content(v).expect("decode should succeed");
    let encoded = encode_content(c);
    let c2 = decode_content(encoded).expect("re-decode should succeed");
    match c2 {
        Content::Artwork(a) => {
            assert_eq!(a.title, "Nighthawks");
            assert_eq!(a.artwork_medium.as_deref(), Some("oil on canvas"));
            assert_eq!(a.common.unknown.len(), 1);
            assert_eq!(a.common.unknown[0].0, "mysteryField");
        }
        other => panic!("expected an Artwork, got {other:?}"),
    }
}

#[test]
fn decimal_text_round_trips() {
    assert_eq!(u64_to_dec(0), "0");
    assert_eq!(u64_to_dec(90210), "90210");
    assert_eq!(u64_to_dec(u64::MAX), "18446744073709551615");
    assert_eq!(parse_u64_dec("18446744073709551615"), Some(u64::MAX));
    assert_eq!(parse_u64_dec("18446744073709551616"), None);
    assert_eq!(parse_u64_dec("007"), Some(7));
    assert_eq!(parse_u64_dec(""), None);
    assert_eq!(parse_u64_dec("12a"), None);
    assert_eq!(parse_u16_dec("65535"), Some(u16::MAX));
    assert_eq!(parse_u16_dec("65536"), None);
}

#[test]
fn schema_lists_required_fields() {
    let book = schema(ItemType::Book);
    let title = book.iter().find(|d| d.name == "title").expect("title in schema");
    assert!(title.required);
    let nov = book
        .iter()
        .find(|d| d.name == "numberOfVolumes")
        .expect("numberOfVolumes in schema");
    assert!(nov.required);
    assert_eq!(nov.kind, FieldKind::Number);
    let webpage = schema(ItemType::Webpage);
    assert!(webpage.iter().all(|d| !d.required));
    assert!(webpage.iter().any(|d| d.name == "url"));
    assert!(item_type_from_tag("bookSection") == Some(ItemType::BookSection));
}
