use edtr::{
    decode, decode_json, encode, encode_json, is_default, DecodeConfig, EdtrArticle,
    EdtrArticleIntroduction, EdtrArticleReference, EdtrArticleRelatedContent, EdtrBox,
    EdtrBoxType, EdtrImage, EdtrMarkupText, EdtrPlugin, EdtrSpoiler, EdtrText, ErrorKind, Json,
    PathStep, SchemaRevision,
};

fn v1() -> DecodeConfig {
    DecodeConfig::new(SchemaRevision::V1)
}

fn v2() -> DecodeConfig {
    DecodeConfig::new(SchemaRevision::V2)
}

fn kind_of(text: &str, config: &DecodeConfig) -> ErrorKind {
    match decode(text.as_bytes(), config) {
        Ok(t) => panic!("decoded unexpectedly: {:?}", t),
        Err(e) => e.kind,
    }
}

fn text_of(t: &EdtrPlugin) -> String {
    String::from_utf8(encode(t)).unwrap()
}

fn fragments(text: &str) -> Vec<EdtrText> {
    let doc = format!("{{\"plugin\":\"text\",\"state\":[{}]}}", text);
    match decode(doc.as_bytes(), &v2()).unwrap() {
        EdtrPlugin::Text(v) => v,
        other => panic!("not a text plugin: {:?}", other),
    }
}

fn simple(text: &str) -> EdtrPlugin {
    EdtrPlugin::Text(vec![EdtrText::from(text.to_string())])
}

fn rows_chain(levels: usize) -> String {
    let mut s = String::from("{\"plugin\":\"table\",\"state\":\"x\"}");
    for _ in 0..levels {
        s = format!("{{\"plugin\":\"rows\",\"state\":[{}]}}", s);
    }
    s
}

#[test]
fn empty_object_is_empty_fragment() {
    let v = fragments("{}");
    assert_eq!(v.len(), 1);
    assert!(matches!(v[0], EdtrText::Empty {}));
}

#[test]
fn text_only_is_plain_run() {
    let v = fragments("{\"text\":\"hi\"}");
    match &v[0] {
        EdtrText::SimpleText { text, strong, em, code } => {
            assert_eq!(text, "hi");
            assert!(!strong && !em && !code);
        }
        other => panic!("{:?}", other),
    }
}

#[test]
fn typed_fragment_is_markup() {
    let v = fragments("{\"type\":\"p\",\"children\":[]}");
    match &v[0] {
        EdtrText::NestedText(EdtrMarkupText::Paragraph { children }) => assert!(children.is_empty()),
        other => panic!("{:?}", other),
    }
}

#[test]
fn markup_fields_decode() {
    let v = fragments(
        "{\"type\":\"h\",\"level\":2,\"children\":[{\"type\":\"a\",\"href\":\"u\",\"children\":[{\"text\":\"x\",\"em\":true}]}]},{\"type\":\"math\",\"src\":\"x^2\",\"inline\":true,\"children\":[]}",
    );
    match &v[0] {
        EdtrText::NestedText(EdtrMarkupText::Heading { level, children }) => {
            assert_eq!(*level, 2);
            match &children[0] {
                EdtrText::NestedText(EdtrMarkupText::Hyperlink { href, children }) => {
                    assert_eq!(href, "u");
                    assert!(matches!(&children[0], EdtrText::SimpleText { em: true, strong: false, .. }));
                }
                other => panic!("{:?}", other),
            }
        }
        other => panic!("{:?}", other),
    }
    match &v[1] {
        EdtrText::NestedText(EdtrMarkupText::Math { src, inline, children }) => {
            assert_eq!(src, "x^2");
            assert!(*inline);
            assert!(children.is_empty());
        }
        other => panic!("{:?}", other),
    }
}

#[test]
fn extra_field_in_envelope_is_rejected() {
    let e = kind_of("{\"plugin\":\"table\",\"state\":\"x\",\"extra\":1}", &v2());
    assert_eq!(e, ErrorKind::UnexpectedField);
}

#[test]
fn extra_field_in_payload_is_rejected() {
    let doc = "{\"plugin\":\"spoiler\",\"state\":{\"title\":\"t\",\"content\":{\"plugin\":\"table\",\"state\":\"x\"},\"foo\":1}}";
    match decode(doc.as_bytes(), &v2()) {
        Err(e) => {
            assert_eq!(e.kind, ErrorKind::UnexpectedField);
            assert_eq!(e.path.len(), 2);
            assert!(matches!(&e.path[0], PathStep::Field(f) if f == "state"));
            assert!(matches!(&e.path[1], PathStep::Field(f) if f == "foo"));
        }
        Ok(t) => panic!("{:?}", t),
    }
}

#[test]
fn extra_field_in_plain_run_is_rejected() {
    let doc = "{\"plugin\":\"text\",\"state\":[{\"text\":\"a\",\"bold\":true}]}";
    assert_eq!(kind_of(doc, &v2()), ErrorKind::UnexpectedField);
}

#[test]
fn code_flag_is_unknown_in_v1() {
    let doc = "{\"plugin\":\"text\",\"state\":[{\"text\":\"a\",\"code\":true}]}";
    assert_eq!(kind_of(doc, &v1()), ErrorKind::UnexpectedField);
    assert!(decode(doc.as_bytes(), &v2()).is_ok());
}

#[test]
fn fragment_without_text_or_type_is_ambiguous() {
    let doc = "{\"plugin\":\"text\",\"state\":[{\"strong\":true}]}";
    assert_eq!(kind_of(doc, &v2()), ErrorKind::AmbiguousTextFragment);
}

#[test]
fn plain_run_omits_default_flags() {
    let t = simple("a");
    assert_eq!(text_of(&t), "{\"plugin\":\"text\",\"state\":[{\"text\":\"a\"}]}");
}

#[test]
fn plain_run_keeps_set_flag_only() {
    let t = EdtrPlugin::Text(vec![EdtrText::SimpleText {
        text: "a".to_string(),
        strong: true,
        em: false,
        code: false,
    }]);
    assert_eq!(text_of(&t), "{\"plugin\":\"text\",\"state\":[{\"text\":\"a\",\"strong\":true}]}");
}

fn box_doc() -> &'static str {
    "{\"plugin\":\"box\",\"state\":{\"boxType\":\"theorem\",\"title\":{\"plugin\":\"text\",\"state\":[{\"text\":\"T\"}]},\"anchorId\":\"b1\",\"content\":{\"plugin\":\"text\",\"state\":[]}}}"
}

#[test]
fn box_is_unknown_in_v1() {
    assert_eq!(kind_of(box_doc(), &v1()), ErrorKind::UnknownDiscriminant);
}

#[test]
fn box_decodes_in_v2() {
    match decode(box_doc().as_bytes(), &v2()).unwrap() {
        EdtrPlugin::Box(b) => {
            assert_eq!(b.box_type, EdtrBoxType::Theorem);
            assert_eq!(b.anchor_id, "b1");
        }
        other => panic!("{:?}", other),
    }
}

#[test]
fn ordered_list_is_unknown_in_v1() {
    let doc = "{\"plugin\":\"text\",\"state\":[{\"type\":\"ordered-list\",\"children\":[]}]}";
    assert_eq!(kind_of(doc, &v1()), ErrorKind::UnknownDiscriminant);
    assert!(decode(doc.as_bytes(), &v2()).is_ok());
}

#[test]
fn unknown_plugin_is_rejected() {
    let doc = "{\"plugin\":\"video\",\"state\":\"x\"}";
    assert_eq!(kind_of(doc, &v2()), ErrorKind::UnknownDiscriminant);
}

#[test]
fn deep_rows_chain_exceeds_depth() {
    let config = DecodeConfig { revision: SchemaRevision::V2, max_depth: 10 };
    assert_eq!(kind_of(&rows_chain(20), &config), ErrorKind::DepthExceeded);
    assert!(decode(rows_chain(9).as_bytes(), &config).is_ok());
    assert_eq!(kind_of(&rows_chain(10), &config), ErrorKind::DepthExceeded);
}

#[test]
fn deep_json_value_exceeds_depth() {
    let mut j = Json::Object(vec![
        ("plugin".to_string(), Json::Str("table".to_string())),
        ("state".to_string(), Json::Str("x".to_string())),
    ]);
    for _ in 0..1000 {
        j = Json::Object(vec![
            ("plugin".to_string(), Json::Str("rows".to_string())),
            ("state".to_string(), Json::Array(vec![j])),
        ]);
    }
    match decode_json(&j, &v2()) {
        Err(e) => assert_eq!(e.kind, ErrorKind::DepthExceeded),
        Ok(_) => panic!("a chain of 1001 plugins fits"),
    }
}

fn article_doc() -> &'static str {
    "{\"plugin\":\"article\",\"state\":{\"introduction\":{\"plugin\":\"text\",\"state\":[{\"text\":\"Intro\"}]},\"content\":{\"plugin\":\"text\",\"state\":[{\"text\":\"Body\"}]},\"exercises\":[],\"exerciseFolder\":{\"id\":\"42\",\"title\":\"Folder\"},\"relatedContent\":{\"articles\":[],\"courses\":[],\"videos\":[]},\"sources\":[]}}"
}

fn only_text(t: &EdtrPlugin) -> String {
    match t {
        EdtrPlugin::Text(v) => match &v[..] {
            [EdtrText::SimpleText { text, strong: false, em: false, code: false }] => text.clone(),
            other => panic!("{:?}", other),
        },
        other => panic!("{:?}", other),
    }
}

#[test]
fn minimal_article_end_to_end() {
    match decode(article_doc().as_bytes(), &v2()).unwrap() {
        EdtrPlugin::Article(a) => {
            assert_eq!(only_text(&a.introduction), "Intro");
            assert_eq!(only_text(&a.content), "Body");
            assert!(a.exercises.is_empty());
            assert_eq!(a.exercise_folder, EdtrArticleReference { id: "42".to_string(), title: "Folder".to_string() });
            assert!(a.related_content.articles.is_empty());
            assert!(a.related_content.courses.is_empty());
            assert!(a.related_content.videos.is_empty());
            assert!(a.sources.is_empty());
        }
        other => panic!("{:?}", other),
    }
}

fn sample_tree() -> EdtrPlugin {
    EdtrPlugin::Rows(vec![
        EdtrPlugin::Article(EdtrArticle {
            introduction: Box::new(EdtrPlugin::ArticleIntroduction(EdtrArticleIntroduction {
                explanation: Box::new(simple("why")),
                multimedia: Box::new(EdtrPlugin::Image(EdtrImage {
                    src: "a.png".to_string(),
                    alt: None,
                    caption: Box::new(simple("cap")),
                })),
                illustrating: true,
                width: 50,
            })),
            content: Box::new(EdtrPlugin::Spoiler(EdtrSpoiler {
                title: "Say \"hi\"".to_string(),
                content: Box::new(EdtrPlugin::Injection("/1234".to_string())),
            })),
            exercises: vec![EdtrPlugin::Table("|a|b|".to_string())],
            exercise_folder: EdtrArticleReference { id: "1".to_string(), title: "F".to_string() },
            related_content: EdtrArticleRelatedContent {
                articles: vec![EdtrArticleReference { id: "2".to_string(), title: "A".to_string() }],
                courses: vec![],
                videos: vec![],
            },
            sources: vec![],
        }),
        EdtrPlugin::Box(EdtrBox {
            box_type: EdtrBoxType::Quote,
            title: Box::new(simple("q")),
            anchor_id: "x".to_string(),
            content: Box::new(EdtrPlugin::Text(vec![EdtrText::NestedText(EdtrMarkupText::OrderedList {
                children: vec![EdtrText::Empty {}],
            })])),
        }),
    ])
}

#[test]
fn round_trip_keeps_tree() {
    let t = sample_tree();
    let bytes = encode(&t);
    let back = decode(&bytes, &v2()).unwrap();
    assert_eq!(encode(&back), bytes);
    match &back {
        EdtrPlugin::Rows(v) => {
            assert_eq!(v.len(), 2);
            match &v[0] {
                EdtrPlugin::Article(a) => {
                    match a.content.as_ref() {
                        EdtrPlugin::Spoiler(s) => assert_eq!(s.title, "Say \"hi\""),
                        other => panic!("{:?}", other),
                    }
                    match a.introduction.as_ref() {
                        EdtrPlugin::ArticleIntroduction(i) => {
                            assert_eq!(i.width, 50);
                            assert!(i.illustrating);
                        }
                        other => panic!("{:?}", other),
                    }
                }
                other => panic!("{:?}", other),
            }
        }
        other => panic!("{:?}", other),
    }
}

#[test]
fn json_round_trip_keeps_tree() {
    let t = sample_tree();
    let j = encode_json(&t);
    let back = decode_json(&j, &v2()).unwrap();
    assert_eq!(encode(&back), encode(&t));
}

#[test]
fn encoding_escapes_strings_and_writes_numbers() {
    let t = EdtrPlugin::Table("a\"b".to_string());
    assert_eq!(text_of(&t), "{\"plugin\":\"table\",\"state\":\"a\\\"b\"}");
    let t = EdtrPlugin::Image(EdtrImage { src: "s".to_string(), alt: None, caption: Box::new(EdtrPlugin::Table(String::new())) });
    assert_eq!(
        text_of(&t),
        "{\"plugin\":\"image\",\"state\":{\"src\":\"s\",\"alt\":null,\"caption\":{\"plugin\":\"table\",\"state\":\"\"}}}"
    );
}

#[test]
fn width_is_written_in_decimal() {
    let t = EdtrPlugin::ArticleIntroduction(EdtrArticleIntroduction {
        explanation: Box::new(EdtrPlugin::Table(String::new())),
        multimedia: Box::new(EdtrPlugin::Table(String::new())),
        illustrating: false,
        width: 1234,
    });
    assert!(text_of(&t).contains("\"width\":1234"));
}

#[test]
fn malformed_json_is_rejected() {
    assert_eq!(kind_of("{\"plugin\":", &v2()), ErrorKind::MalformedJson);
}

#[test]
fn missing_field_is_rejected() {
    assert_eq!(kind_of("{\"plugin\":\"table\"}", &v2()), ErrorKind::MissingField);
}

#[test]
fn wrong_type_is_rejected() {
    assert_eq!(kind_of("{\"plugin\":\"table\",\"state\":3}", &v2()), ErrorKind::TypeMismatch);
}

fn intro_with_width(w: &str) -> String {
    format!(
        "{{\"plugin\":\"multimedia\",\"state\":{{\"explanation\":{{\"plugin\":\"table\",\"state\":\"\"}},\"multimedia\":{{\"plugin\":\"table\",\"state\":\"\"}},\"illustrating\":false,\"width\":{}}}}}",
        w
    )
}

#[test]
fn negative_width_is_invalid() {
    assert_eq!(kind_of(&intro_with_width("-1"), &v2()), ErrorKind::InvalidValue);
    assert_eq!(kind_of(&intro_with_width("1.5"), &v2()), ErrorKind::InvalidValue);
    assert!(decode(intro_with_width("7").as_bytes(), &v2()).is_ok());
}

#[test]
fn alt_may_be_missing_or_null() {
    let a = "{\"plugin\":\"image\",\"state\":{\"src\":\"s\",\"caption\":{\"plugin\":\"table\",\"state\":\"\"}}}";
    let b = "{\"plugin\":\"image\",\"state\":{\"src\":\"s\",\"alt\":null,\"caption\":{\"plugin\":\"table\",\"state\":\"\"}}}";
    let c = "{\"plugin\":\"image\",\"state\":{\"src\":\"s\",\"alt\":\"pic\",\"caption\":{\"plugin\":\"table\",\"state\":\"\"}}}";
    for (doc, want) in [(a, None), (b, None), (c, Some("pic".to_string()))] {
        match decode(doc.as_bytes(), &v1()).unwrap() {
            EdtrPlugin::Image(i) => assert_eq!(i.alt, want),
            other => panic!("{:?}", other),
        }
    }
}

#[test]
fn duplicate_key_is_rejected() {
    let j = Json::Object(vec![
        ("plugin".to_string(), Json::Str("table".to_string())),
        ("state".to_string(), Json::Str("x".to_string())),
        ("state".to_string(), Json::Str("y".to_string())),
    ]);
    match decode_json(&j, &v2()) {
        Err(e) => assert_eq!(e.kind, ErrorKind::UnexpectedField),
        Ok(t) => panic!("{:?}", t),
    }
}

#[test]
fn string_becomes_plain_run() {
    let f = EdtrText::from("hello".to_string());
    assert!(matches!(f, EdtrText::SimpleText { ref text, strong: false, em: false, code: false } if text == "hello"));
}

#[test]
fn default_flag_check() {
    assert!(is_default(&false));
    assert!(!is_default(&true));
}

#[test]
fn payloads_convert_into_plugins() {
    assert!(matches!(EdtrPlugin::from("|a|".to_string()), EdtrPlugin::Table(ref s) if s == "|a|"));
    assert!(matches!(EdtrPlugin::from(Vec::<EdtrPlugin>::new()), EdtrPlugin::Rows(ref v) if v.is_empty()));
    assert!(matches!(EdtrPlugin::from(vec![EdtrText::Empty {}]), EdtrPlugin::Text(ref v) if v.len() == 1));
    let s = EdtrSpoiler { title: "t".to_string(), content: Box::new(EdtrPlugin::Table(String::new())) };
    assert!(matches!(EdtrPlugin::from(s), EdtrPlugin::Spoiler(ref x) if x.title == "t"));
}

#[test]
fn first_revision_tree_round_trips_under_v1() {
    let t = EdtrPlugin::Rows(vec![
        simple("plain"),
        EdtrPlugin::Text(vec![EdtrText::NestedText(EdtrMarkupText::UnorderedList {
            children: vec![EdtrText::NestedText(EdtrMarkupText::ListItem {
                children: vec![EdtrText::SimpleText { text: "x".to_string(), strong: true, em: true, code: false }],
            })],
        })]),
        EdtrPlugin::Injection("/42".to_string()),
    ]);
    let bytes = encode(&t);
    let back = decode(&bytes, &v1()).unwrap();
    assert_eq!(encode(&back), bytes);
}

#[test]
fn zero_depth_rejects_everything() {
    let config = DecodeConfig { revision: SchemaRevision::V2, max_depth: 0 };
    assert_eq!(kind_of("{\"plugin\":\"table\",\"state\":\"x\"}", &config), ErrorKind::DepthExceeded);
}

#[test]
fn error_path_names_index() {
    let doc = "{\"plugin\":\"rows\",\"state\":[{\"plugin\":\"table\",\"state\":\"x\"},{\"plugin\":\"table\",\"state\":true}]}";
    match decode(doc.as_bytes(), &v2()) {
        Err(e) => {
            assert_eq!(e.kind, ErrorKind::TypeMismatch);
            assert!(matches!(&e.path[0], PathStep::Field(f) if f == "state"));
            assert!(matches!(&e.path[1], PathStep::Index(1)));
            assert!(matches!(&e.path[2], PathStep::Field(f) if f == "state"));
        }
        Ok(t) => panic!("{:?}", t),
    }
}

fn nested_box_doc() -> &'static str {
    "{\"plugin\":\"rows\",\"state\":[{\"plugin\":\"box\",\"state\":{\"boxType\":\"note\",\"title\":{\"plugin\":\"text\",\"state\":[{\"text\":\"Note\"}]},\"anchorId\":\"a1\",\"content\":{\"plugin\":\"rows\",\"state\":[]}}}]}"
}

#[test]
fn nested_box_decodes_in_v2() {
    match decode(nested_box_doc().as_bytes(), &v2()).unwrap() {
        EdtrPlugin::Rows(v) => match &v[0] {
            EdtrPlugin::Box(b) => {
                assert_eq!(b.box_type, EdtrBoxType::Note);
                assert_eq!(b.anchor_id, "a1");
                assert_eq!(only_text(&b.title), "Note");
                assert!(matches!(b.content.as_ref(), EdtrPlugin::Rows(c) if c.is_empty()));
            }
            other => panic!("{:?}", other),
        },
        other => panic!("{:?}", other),
    }
}

#[test]
fn nested_box_is_unknown_in_v1() {
    assert_eq!(kind_of(nested_box_doc(), &v1()), ErrorKind::UnknownDiscriminant);
}

#[test]
fn extra_spoiler_field_path_ends_with_field() {
    let doc = "{\"plugin\":\"spoiler\",\"state\":{\"title\":\"T\",\"content\":{\"plugin\":\"text\",\"state\":[{\"text\":\"hi\"}]},\"color\":\"red\"}}";
    for config in [v1(), v2()] {
        match decode(doc.as_bytes(), &config) {
            Err(e) => {
                assert_eq!(e.kind, ErrorKind::UnexpectedField);
                assert!(matches!(e.path.last(), Some(PathStep::Field(f)) if f == "color"));
            }
            Ok(t) => panic!("{:?}", t),
        }
    }
}

#[test]
fn default_depth_bound_is_reported() {
    let over = rows_chain(edtr::DEFAULT_MAX_DEPTH);
    assert_eq!(kind_of(&over, &v2()), ErrorKind::DepthExceeded);
    assert!(decode(rows_chain(edtr::DEFAULT_MAX_DEPTH - 1).as_bytes(), &v2()).is_ok());
}
