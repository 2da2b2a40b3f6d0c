use rustberry_poe_monitor::config::{ConfigDocument, Orientation, PositionValue};
use rustberry_poe_monitor::decode::decode_document;
use rustberry_poe_monitor::display::{DisplayError, PoeDisplay};
use rustberry_poe_monitor::json::{parse, JsonValue};

fn text(s: &str) -> JsonValue {
    JsonValue::Text(s.to_string())
}

fn object(members: Vec<(&str, JsonValue)>) -> JsonValue {
    JsonValue::Object(members.into_iter().map(|(k, v)| (k.to_string(), v)).collect())
}

fn mismatch() -> DisplayError {
    DisplayError::ConfigError("document does not match the configuration schema".to_string())
}

#[test]
fn json_text_becomes_a_tree() {
    assert_eq!(parse("null"), Ok(JsonValue::Null));
    assert_eq!(parse("true"), Ok(JsonValue::Bool(true)));
    assert_eq!(parse("-12"), Ok(JsonValue::Number(Some(-12))));
    assert_eq!(parse("\"a\\nb\""), Ok(text("a\nb")));
    assert_eq!(
        parse("[1, \"x\", []]"),
        Ok(JsonValue::List(vec![JsonValue::Number(Some(1)), text("x"), JsonValue::List(vec![])]))
    );
    assert_eq!(
        parse("{\"b\": 1, \"a\": {\"c\": null}}"),
        Ok(object(vec![("a", object(vec![("c", JsonValue::Null)])), ("b", JsonValue::Number(Some(1)))]))
    );
}

#[test]
fn numbers_beyond_i64_are_kept_apart() {
    assert_eq!(parse("8.5"), Ok(JsonValue::Number(None)));
    assert_eq!(parse("8.0"), Ok(JsonValue::Number(None)));
    assert_eq!(parse("18446744073709551615"), Ok(JsonValue::Number(None)));
    assert_eq!(parse("9223372036854775807"), Ok(JsonValue::Number(Some(i64::MAX))));
}

#[test]
fn broken_json_is_an_error() {
    assert!(parse("").is_err());
    assert!(parse("{").is_err());
    assert!(parse("{\"a\": 1,}").is_err());
    assert!(parse("[1] 2").is_err());
    assert!(matches!(PoeDisplay::load_config_from_text("nope"), Err(DisplayError::JsonError(_))));
}

#[test]
fn unreadable_file_is_an_io_error() {
    assert_eq!(
        PoeDisplay::load_config_from_file(Err("permission denied")),
        Err(DisplayError::IoError("permission denied".to_string()))
    );
}

#[test]
fn single_shape_round_trip() {
    let doc = r#"{
        "orientation": "portrait",
        "width": 32,
        "height": 128,
        "comment": "unknown members are passed over",
        "elements": [
            {
                "id": "first",
                "position": { "x": 4, "y": "incrementing" },
                "components": [
                    { "value": { "text": "cpu_usage", "font": "PROFONT12" }, "prefix": { "text": "CPU", "font": "FONT_5X8" } },
                    { "value": { "text": "%", "font": "made-up" }, "suffix": { "text": "!", "font": "PROFONT9", "extra": 1 } }
                ]
            },
            {
                "id": "second",
                "position": { "x": { "align": "right", "anchor": 30 }, "y": 100 },
                "components": []
            }
        ]
    }"#;
    let loaded = PoeDisplay::load_config_from_file(Ok(doc)).unwrap();
    let c = match &loaded {
        ConfigDocument::SingleOrientation(c) => c,
        _ => panic!("a document without orientations has one layout"),
    };
    assert_eq!(c.orientation, Orientation::Portrait);
    assert_eq!((c.width, c.height), (32, 128));
    assert_eq!(c.elements.len(), 2);
    assert_eq!(c.elements[0].id, "first");
    assert_eq!(c.elements[0].position.x, PositionValue::Number(4));
    assert_eq!(c.elements[0].position.y, PositionValue::Text("incrementing".to_string()));
    assert_eq!(c.elements[0].components.len(), 2);
    assert_eq!(c.elements[0].components[0].value.text, "cpu_usage");
    assert_eq!(c.elements[0].components[0].value.font, "PROFONT12");
    assert_eq!(c.elements[0].components[0].prefix.as_ref().unwrap().text, "CPU");
    assert_eq!(c.elements[0].components[0].prefix.as_ref().unwrap().font, "FONT_5X8");
    assert_eq!(c.elements[0].components[0].suffix, None);
    assert_eq!(c.elements[0].components[1].value.font, "made-up");
    assert_eq!(c.elements[0].components[1].prefix, None);
    assert_eq!(c.elements[0].components[1].suffix.as_ref().unwrap().text, "!");
    assert_eq!(c.elements[0].components[1].suffix.as_ref().unwrap().font, "PROFONT9");
    assert_eq!(c.elements[1].id, "second");
    assert_eq!(
        c.elements[1].position.x,
        PositionValue::Relative { align: "right".to_string(), anchor: 30 }
    );
    assert_eq!(c.elements[1].position.y, PositionValue::Number(100));
    assert_eq!(c.elements[1].components.len(), 0);
}

#[test]
fn dual_shape_round_trip() {
    let doc = r#"{
        "orientation": "ignored where orientations is there",
        "orientations": {
            "portrait": { "width": 32, "height": 128, "elements": [
                { "id": "p", "position": { "x": "left", "y": 1 }, "components": [ { "value": { "text": "a", "font": "FONT_6X12" } } ] }
            ] },
            "landscape": { "width": 128, "height": 32, "elements": [] }
        }
    }"#;
    match PoeDisplay::load_config_from_text(doc).unwrap() {
        ConfigDocument::DualOrientation { landscape, portrait } => {
            assert_eq!(landscape.orientation, Orientation::Landscape);
            assert_eq!((landscape.width, landscape.height), (128, 32));
            assert_eq!(landscape.elements.len(), 0);
            assert_eq!(portrait.orientation, Orientation::Portrait);
            assert_eq!((portrait.width, portrait.height), (32, 128));
            assert_eq!(portrait.elements.len(), 1);
            assert_eq!(portrait.elements[0].id, "p");
            assert_eq!(portrait.elements[0].position.x, PositionValue::Text("left".to_string()));
            assert_eq!(portrait.elements[0].components[0].value.font, "FONT_6X12");
        }
        _ => panic!("a document with orientations has two layouts"),
    }
}

#[test]
fn dual_shape_needs_both_layouts() {
    let doc = r#"{"orientations": {"landscape": {"width": 128, "height": 32, "elements": []}}}"#;
    assert_eq!(PoeDisplay::load_config_from_text(doc), Err(mismatch()));
    let not_an_object = r#"{"orientations": 3}"#;
    assert_eq!(PoeDisplay::load_config_from_text(not_an_object), Err(mismatch()));
}

#[test]
fn missing_members_are_a_mismatch() {
    let cases = [
        r#"[]"#,
        r#"{}"#,
        r#"{"width":128,"height":32,"elements":[]}"#,
        r#"{"orientation":"landscape","height":32,"elements":[]}"#,
        r#"{"orientation":"landscape","width":128,"elements":[]}"#,
        r#"{"orientation":"landscape","width":128,"height":32}"#,
        r#"{"orientation":"landscape","width":128,"height":32,"elements":{}}"#,
        r#"{"orientation":"landscape","width":128.5,"height":32,"elements":[]}"#,
        r#"{"orientation":"landscape","width":2147483648,"height":32,"elements":[]}"#,
        r#"{"orientation":"landscape","width":"128","height":32,"elements":[]}"#,
        r#"{"orientation":1,"width":128,"height":32,"elements":[]}"#,
        r#"{"orientation":"landscape","width":128,"height":32,"elements":[{"position":{"x":0,"y":0},"components":[]}]}"#,
        r#"{"orientation":"landscape","width":128,"height":32,"elements":[{"id":"a","components":[]}]}"#,
        r#"{"orientation":"landscape","width":128,"height":32,"elements":[{"id":"a","position":{"x":0,"y":0}}]}"#,
        r#"{"orientation":"landscape","width":128,"height":32,"elements":[{"id":"a","position":{"x":0},"components":[]}]}"#,
        r#"{"orientation":"landscape","width":128,"height":32,"elements":[{"id":"a","position":{"x":0,"y":true},"components":[]}]}"#,
        r#"{"orientation":"landscape","width":128,"height":32,"elements":[{"id":"a","position":{"x":0,"y":{"align":"left"}},"components":[]}]}"#,
        r#"{"orientation":"landscape","width":128,"height":32,"elements":[{"id":"a","position":{"x":0,"y":0},"components":[{}]}]}"#,
        r#"{"orientation":"landscape","width":128,"height":32,"elements":[{"id":"a","position":{"x":0,"y":0},"components":[{"value":{"text":"t"}}]}]}"#,
        r#"{"orientation":"landscape","width":128,"height":32,"elements":[{"id":"a","position":{"x":0,"y":0},"components":[{"value":{"text":"t","font":"f"},"prefix":3}]}]}"#,
        r#"{"orientation":"landscape","width":128,"height":32,"elements":[{"id":"a","position":{"x":0,"y":0},"components":[{"value":{"text":"t","font":"f"},"suffix":{"text":"x"}}]}]}"#,
    ];
    for doc in cases {
        assert_eq!(PoeDisplay::load_config_from_text(doc), Err(mismatch()), "{}", doc);
    }
}

#[test]
fn unknown_orientation_is_named() {
    let doc = r#"{"orientation":"Landscape","width":128,"height":32,"elements":[]}"#;
    assert_eq!(PoeDisplay::load_config_from_text(doc), Err(DisplayError::InvalidOrientation));
    let also_incomplete = r#"{"orientation":"diagonal"}"#;
    assert_eq!(PoeDisplay::load_config_from_text(also_incomplete), Err(DisplayError::InvalidOrientation));
}

#[test]
fn extreme_pixel_counts_are_kept() {
    let doc = r#"{"orientation":"landscape","width":2147483647,"height":-2147483648,"elements":[]}"#;
    match PoeDisplay::load_config_from_text(doc).unwrap() {
        ConfigDocument::SingleOrientation(c) => assert_eq!((c.width, c.height), (i32::MAX, i32::MIN)),
        _ => panic!("a document without orientations has one layout"),
    }
}

#[test]
fn decoding_a_tree_built_by_hand() {
    let run = object(vec![("text", text("cpu_temp")), ("font", text("FONT_5X8"))]);
    let element = object(vec![
        ("id", text("t")),
        ("position", object(vec![("x", JsonValue::Number(Some(1))), ("y", text("incrementing"))])),
        ("components", JsonValue::List(vec![object(vec![("value", run)])])),
    ]);
    let tree = object(vec![
        ("orientation", text("landscape")),
        ("width", JsonValue::Number(Some(128))),
        ("height", JsonValue::Number(Some(32))),
        ("elements", JsonValue::List(vec![element])),
    ]);
    match decode_document(&tree).unwrap() {
        ConfigDocument::SingleOrientation(c) => {
            assert_eq!(c.elements.len(), 1);
            assert_eq!(c.elements[0].components[0].value.text, "cpu_temp");
            assert_eq!(c.elements[0].position.x, PositionValue::Number(1));
        }
        _ => panic!("a document without orientations has one layout"),
    }
}

#[test]
fn the_first_member_of_a_key_counts() {
    let tree = object(vec![
        ("orientation", text("portrait")),
        ("orientation", text("landscape")),
        ("width", JsonValue::Number(Some(1))),
        ("height", JsonValue::Number(Some(2))),
        ("elements", JsonValue::List(vec![])),
    ]);
    match decode_document(&tree).unwrap() {
        ConfigDocument::SingleOrientation(c) => assert_eq!(c.orientation, Orientation::Portrait),
        _ => panic!("a document without orientations has one layout"),
    }
    assert_eq!(decode_document(&JsonValue::Number(None)), Err(mismatch()));
    assert_eq!(decode_document(&object(vec![("width", JsonValue::Number(None))])), Err(mismatch()));
}
