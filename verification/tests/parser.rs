use xcodeproj::error::{PBXError, PBXSyntaxElement};
use xcodeproj::kind::{PBXFSReferenceKind, PBXObjectKind};
use xcodeproj::parser::PBXProjectParser;
use xcodeproj::value::{PBXHashMap, PBXValue, PBXVec};

fn value_of(text: &str) -> PBXValue {
    let (key, value) = PBXProjectParser::field(&format!("k = {text};")).unwrap();
    assert_eq!(key, "k");
    value
}

fn error_of(text: &str) -> (usize, PBXSyntaxElement) {
    match PBXProjectParser::try_from_str(text) {
        Err(PBXError::Syntax { position, expected }) => (position, expected),
        other => panic!("no syntax error: {other:?}"),
    }
}

#[test]
fn mod_parse_key_pair() {
    let str =
        "0EC07ACE89150EC90442393B = {isa = PBXBuildFile; fileRef = F2E640B5C2B85914F6801498; };";
    let (key, value) = PBXProjectParser::field(str).unwrap();

    assert_eq!(key, "0EC07ACE89150EC90442393B");
    assert!(matches!(value, PBXValue::Object(_)));

    let object = value.try_into_object().unwrap();
    assert_eq!(
        object.get_value("isa"),
        Some(&PBXValue::Kind(PBXObjectKind::from_isa("PBXBuildFile")))
    );
    assert_eq!(
        object.get_value("fileRef"),
        Some(&PBXValue::String("F2E640B5C2B85914F6801498".into()))
    );
}

#[test]
fn dotted_number_is_a_string() {
    assert_eq!(value_of("1.4.2"), PBXValue::String("1.4.2".into()));
    assert_eq!(value_of("5.0"), PBXValue::String("5.0".into()));
    assert_eq!(value_of("15.2"), PBXValue::String("15.2".into()));
}

#[test]
fn digits_are_a_number() {
    assert_eq!(value_of("0"), PBXValue::Number(0));
    assert_eq!(value_of("1320"), PBXValue::Number(1320));
    assert_eq!(value_of("0630"), PBXValue::Number(630));
    assert_eq!(value_of("2147483647"), PBXValue::Number(2147483647));
    assert_eq!(value_of("9223372036854775807"), PBXValue::Number(isize::MAX));
    assert_eq!(value_of("12ab"), PBXValue::String("12ab".into()));
}

#[test]
fn number_too_large_is_an_error() {
    let text = "{ n = 9223372036854775808; }";
    assert_eq!(error_of(text), (6, PBXSyntaxElement::NumberInRange));
    let text = "{ n = 123456789012345678901234; }";
    assert_eq!(error_of(text), (6, PBXSyntaxElement::NumberInRange));
}

#[test]
fn booleans() {
    assert_eq!(value_of("YES"), PBXValue::Bool(true));
    assert_eq!(value_of("NO"), PBXValue::Bool(false));
    assert_eq!(value_of("YES_ERROR"), PBXValue::String("YES_ERROR".into()));
    assert_eq!(value_of("NOPE"), PBXValue::String("NOPE".into()));
    assert_eq!(value_of("yes"), PBXValue::String("yes".into()));
    assert_eq!(value_of("\"YES\""), PBXValue::String("YES".into()));
    assert_eq!(value_of("YES").try_into_bool().unwrap(), true);
    assert!(value_of("Maybe").try_into_bool().is_err());
}

#[test]
fn kinds() {
    assert_eq!(
        value_of("PBXGroup"),
        PBXValue::Kind(PBXObjectKind::PBXFSReference(PBXFSReferenceKind::FileGroup))
    );
    assert_eq!(value_of("PBXFutureKind"), PBXValue::String("PBXFutureKind".into()));
}

#[test]
fn quoted_strings() {
    assert_eq!(value_of("\"\""), PBXValue::String("".into()));
    assert_eq!(value_of("\"<group>\""), PBXValue::String("<group>".into()));
    assert_eq!(value_of("\"a b; c = {\""), PBXValue::String("a b; c = {".into()));
    // an escaped quote does not close the string; the quote is dropped and
    // the backslash stays
    assert_eq!(value_of(r#""say \"hi\"""#), PBXValue::String(r"say \hi\".into()));
    assert_eq!(value_of(r#""a\\""#), PBXValue::String(r"a\\".into()));
    assert_eq!(value_of(r#""line\nline""#), PBXValue::String(r"line\nline".into()));
    assert_eq!(value_of("\"/* no comment */\""), PBXValue::String("/* no comment */".into()));
}

#[test]
fn arrays_and_objects() {
    assert_eq!(value_of("( )"), PBXValue::Vec(PBXVec(vec![])));
    assert_eq!(
        value_of("(a, \"b c\", 3, NO, (x,), {y = z;}, )"),
        PBXValue::Vec(PBXVec(vec![
            PBXValue::String("a".into()),
            PBXValue::String("b c".into()),
            PBXValue::Number(3),
            PBXValue::Bool(false),
            PBXValue::Vec(PBXVec(vec![PBXValue::String("x".into())])),
            PBXValue::Object(PBXHashMap::new(vec![("y".into(), PBXValue::String("z".into()))])),
        ]))
    );
    assert_eq!(value_of("{}"), PBXValue::Object(PBXHashMap::new(vec![])));
}

#[test]
fn later_field_wins() {
    let map = PBXProjectParser::try_from_str("{ a = 1; b = 2; a = 3; }").unwrap();
    assert_eq!(map.len(), 2);
    assert_eq!(map.get_number("a"), Some(&3));
    assert_eq!(map.get_number("b"), Some(&2));
    assert_eq!(map.entries[0].0, "a");
}

#[test]
fn keys() {
    let map = PBXProjectParser::try_from_str(
        "{ plain = 1; \"quoted key\" = 2; 0EC07ACE89150EC90442393B = 3; YES = 4; 12 = 5; a.b/c_d$ = 6; }",
    )
    .unwrap();
    assert_eq!(map.get_number("plain"), Some(&1));
    assert_eq!(map.get_number("quoted key"), Some(&2));
    assert_eq!(map.get_number("0EC07ACE89150EC90442393B"), Some(&3));
    assert_eq!(map.get_number("YES"), Some(&4));
    assert_eq!(map.get_number("12"), Some(&5));
    assert_eq!(map.get_number("a.b/c_d$"), Some(&6));
}

#[test]
fn blanks_and_comments() {
    let text = "// !$*UTF8*$!\n/* one */ { /* two */ a /* three */ = /* four */ b /* five */ ; // six\n c=d;}\n// end";
    let map = PBXProjectParser::try_from_str(text).unwrap();
    assert_eq!(map.get_string("a"), Some(&"b".to_string()));
    assert_eq!(map.get_string("c"), Some(&"d".to_string()));
    // a comment ends a bare text
    let map = PBXProjectParser::try_from_str("{a = b/* c */;}").unwrap();
    assert_eq!(map.get_string("a"), Some(&"b".to_string()));
    // a slash alone does not
    let map = PBXProjectParser::try_from_str("{a = usr/lib/libz.dylib;}").unwrap();
    assert_eq!(map.get_string("a"), Some(&"usr/lib/libz.dylib".to_string()));
    // a comment that is not closed runs to the end
    assert_eq!(error_of("{a = b; /* }"), (12, PBXSyntaxElement::KeyOrObjectClose));
}

#[test]
fn syntax_errors() {
    assert_eq!(error_of(""), (0, PBXSyntaxElement::ObjectOpen));
    assert_eq!(error_of("  a = b;"), (2, PBXSyntaxElement::ObjectOpen));
    assert_eq!(error_of("{ a b; }"), (4, PBXSyntaxElement::Equals));
    assert_eq!(error_of("{ a = ; }"), (6, PBXSyntaxElement::Value));
    assert_eq!(error_of("{ a = b }"), (8, PBXSyntaxElement::Semicolon));
    assert_eq!(error_of("{ a = (b c); }"), (9, PBXSyntaxElement::Comma));
    assert_eq!(error_of("{ a = (b, c); }"), (11, PBXSyntaxElement::Comma));
    assert_eq!(error_of("{ a = \"b; }"), (11, PBXSyntaxElement::StringClose));
    assert_eq!(error_of("{ \"a = b; }"), (11, PBXSyntaxElement::StringClose));
    assert_eq!(error_of("{ a = b; "), (9, PBXSyntaxElement::KeyOrObjectClose));
    assert_eq!(error_of("{ a = b; = c; }"), (9, PBXSyntaxElement::KeyOrObjectClose));
    assert_eq!(error_of("{ a = b; } x"), (11, PBXSyntaxElement::EndOfInput));
    assert_eq!(error_of("{ a = (b, "), (10, PBXSyntaxElement::Value));
    assert_eq!(error_of("{ a = <b>; }"), (6, PBXSyntaxElement::Value));
    // places are counted in characters, not in bytes
    assert_eq!(error_of("{ a = \"\u{e9}\u{e9}\"  }"), (12, PBXSyntaxElement::Semicolon));
}

#[test]
fn one_field() {
    assert_eq!(
        PBXProjectParser::field("  name = \"My App\" ; // done").unwrap(),
        ("name".to_string(), PBXValue::String("My App".into()))
    );
    assert!(matches!(
        PBXProjectParser::field("a = b; c = d;"),
        Err(PBXError::Syntax { position: 7, expected: PBXSyntaxElement::EndOfInput })
    ));
    assert!(matches!(
        PBXProjectParser::field("= b;"),
        Err(PBXError::Syntax { position: 0, expected: PBXSyntaxElement::KeyOrObjectClose })
    ));
    assert!(PBXProjectParser::field("a = b;").is_ok());
}

#[test]
fn lines_and_columns() {
    let text = "{\n  a = b;\n  c = ;\n}";
    assert_eq!(error_of(text), (17, PBXSyntaxElement::Value));
    assert_eq!(PBXProjectParser::line_and_column(text, 17), (2, 6));
    assert_eq!(PBXProjectParser::line_and_column(text, 0), (0, 0));
    assert_eq!(PBXProjectParser::line_and_column(text, 1), (0, 1));
    assert_eq!(PBXProjectParser::line_and_column(text, 2), (1, 0));
    assert_eq!(PBXProjectParser::line_and_column(text, 20), (3, 1));
    assert_eq!(PBXProjectParser::line_and_column(text, 2000), (3, 1));
    assert_eq!(PBXProjectParser::line_and_column("", 0), (0, 0));
}

#[test]
fn text_outside_ascii_is_kept() {
    assert_eq!(value_of("\"caf\u{e9} \u{1f600}\""), PBXValue::String("caf\u{e9} \u{1f600}".into()));
}
