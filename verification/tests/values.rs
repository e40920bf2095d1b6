use xcodeproj::error::{PBXError, PBXValueKind};
use xcodeproj::kind::PBXObjectKind;
use xcodeproj::value::{PBXHashMap, PBXValue, PBXVec};

fn text(s: &str) -> PBXValue {
    PBXValue::String(s.to_string())
}

fn sample() -> PBXHashMap {
    PBXHashMap::new(vec![
        ("name".to_string(), text("App")),
        ("count".to_string(), PBXValue::Number(3)),
        ("on".to_string(), PBXValue::Number(1)),
        ("off".to_string(), PBXValue::Number(0)),
        ("flag".to_string(), PBXValue::Bool(true)),
        ("isa".to_string(), PBXValue::Kind(PBXObjectKind::PBXProject)),
        (
            "list".to_string(),
            PBXValue::Vec(PBXVec::new(vec![text("a"), PBXValue::Number(1), text("b")])),
        ),
        (
            "inner".to_string(),
            PBXValue::Object(PBXHashMap::new(vec![("deep".to_string(), text("down"))])),
        ),
        ("nothing".to_string(), PBXValue::Null),
    ])
}

#[test]
fn variants() {
    assert!(text("a").is_string());
    assert!(!text("a").is_number());
    assert!(PBXValue::Number(1).is_number());
    assert!(PBXValue::Bool(false).is_bool());
    assert!(PBXValue::Null.is_null());
    assert!(PBXValue::Kind(PBXObjectKind::PBXBuildFile).is_kind());
    assert!(PBXValue::Vec(PBXVec::new(vec![])).is_vec());
    assert!(PBXValue::Vec(PBXVec::new(vec![])).is_array());
    assert!(PBXValue::Object(PBXHashMap::empty()).is_object());
    assert_eq!(text("a").kind(), PBXValueKind::String);
    assert_eq!(PBXValue::Null.kind(), PBXValueKind::Null);
}

#[test]
fn soft_accessors() {
    assert_eq!(text("a").as_string(), Some(&"a".to_string()));
    assert_eq!(text("a").as_number(), None);
    assert_eq!(PBXValue::Number(7).as_number(), Some(&7));
    assert_eq!(PBXValue::Bool(true).as_bool(), Some(&true));
    assert_eq!(PBXValue::Number(1).as_bool(), None);
    assert_eq!(
        PBXValue::Kind(PBXObjectKind::PBXBuildFile).as_kind(),
        Some(&PBXObjectKind::PBXBuildFile)
    );
    let list = PBXValue::Vec(PBXVec::new(vec![text("x")]));
    assert_eq!(list.as_array().unwrap().len(), 1);
    assert_eq!(list.as_vec().unwrap().len(), 1);
    assert!(list.as_object().is_none());
    assert!(text("a").as_array().is_none());
}

#[test]
fn hard_accessors() {
    assert_eq!(text("a").try_into_string().unwrap(), "a");
    assert_eq!(PBXValue::Number(7).try_into_number().unwrap(), 7);
    assert_eq!(PBXValue::Bool(true).try_into_bool().unwrap(), true);
    assert_eq!(
        PBXValue::Kind(PBXObjectKind::PBXBuildFile).try_into_kind().unwrap(),
        PBXObjectKind::PBXBuildFile
    );
    assert_eq!(PBXValue::Vec(PBXVec::new(vec![text("x")])).try_into_array().unwrap(), vec![text("x")]);
    assert_eq!(PBXValue::Vec(PBXVec::new(vec![text("x")])).try_into_vec().unwrap().len(), 1);
    assert_eq!(PBXValue::Object(PBXHashMap::empty()).try_into_object().unwrap().len(), 0);
    assert!(matches!(
        PBXValue::Number(7).try_into_string(),
        Err(PBXError::TypeMismatch { expected: PBXValueKind::String, actual: PBXValueKind::Number })
    ));
    assert!(matches!(
        text("a").try_into_object(),
        Err(PBXError::TypeMismatch { expected: PBXValueKind::Object, actual: PBXValueKind::String })
    ));
    assert!(matches!(
        PBXValue::Null.try_into_array(),
        Err(PBXError::TypeMismatch { expected: PBXValueKind::Vec, actual: PBXValueKind::Null })
    ));
    assert!(matches!(
        PBXValue::Bool(true).try_into_number(),
        Err(PBXError::TypeMismatch { expected: PBXValueKind::Number, actual: PBXValueKind::Bool })
    ));
    assert!(matches!(
        PBXValue::Number(1).try_into_bool(),
        Err(PBXError::TypeMismatch { expected: PBXValueKind::Bool, actual: PBXValueKind::Number })
    ));
    assert!(matches!(
        text("PBXProject").try_into_kind(),
        Err(PBXError::TypeMismatch { expected: PBXValueKind::Kind, actual: PBXValueKind::String })
    ));
}

#[test]
fn map_lookup() {
    let map = sample();
    assert_eq!(map.len(), 9);
    assert!(map.contains_key("name"));
    assert!(!map.contains_key("Name"));
    assert_eq!(map.position("count"), Some(1));
    assert_eq!(map.position("missing"), None);
    assert_eq!(map.get_value("name"), Some(&text("App")));
    assert_eq!(map.get_value("missing"), None);
    assert_eq!(map.get_string("name"), Some(&"App".to_string()));
    assert_eq!(map.get_string("count"), None);
    assert_eq!(map.get_number("count"), Some(&3));
    assert_eq!(map.get_bool("flag"), Some(&true));
    assert_eq!(map.get_bool("on"), None);
    assert_eq!(map.get_kind("isa"), Some(&PBXObjectKind::PBXProject));
    assert_eq!(map.get_vec("list").unwrap().len(), 3);
    assert_eq!(map.get_object("inner").unwrap().get_string("deep"), Some(&"down".to_string()));
    assert_eq!(map.text("name"), Some("App".to_string()));
    assert_eq!(map.number("count"), Some(3));
    assert_eq!(map.flag("on"), Some(true));
    assert_eq!(map.flag("off"), Some(false));
    assert_eq!(map.flag("count"), Some(false));
    assert_eq!(map.flag("flag"), None);
    assert_eq!(map.flag_or("missing", true), true);
    assert_eq!(map.flag_or("off", true), false);
    assert_eq!(map.number_or("missing", 2147483647), 2147483647);
    assert_eq!(map.number_or("name", 5), 5);
    assert_eq!(map.number_or("count", 5), 3);
    assert_eq!(map.texts("list"), Some(vec!["a".to_string(), "b".to_string()]));
    assert_eq!(map.texts("name"), None);
    assert_eq!(map.ids("list"), vec!["a".to_string(), "b".to_string()]);
    assert_eq!(map.ids("missing"), Vec::<String>::new());
    let entries = map.object_entries();
    assert_eq!(entries.len(), 1);
    assert_eq!(entries[0].0, "inner");
}

#[test]
fn map_required_fields() {
    let map = sample();
    assert_eq!(map.try_get_value("name").unwrap(), &text("App"));
    assert_eq!(map.try_get_string("name").unwrap(), "App");
    assert_eq!(map.try_get_number("count").unwrap(), &3);
    assert_eq!(map.try_get_bool("flag").unwrap(), &true);
    assert_eq!(map.try_get_kind("isa").unwrap(), &PBXObjectKind::PBXProject);
    assert_eq!(map.try_get_vec("list").unwrap().len(), 3);
    assert_eq!(map.try_get_object("inner").unwrap().len(), 1);
    assert!(map.try_get_value("missing").unwrap_err().is_missing_field("missing"));
    assert!(matches!(
        map.try_get_value("missing"),
        Err(PBXError::MissingField { key, object: None }) if key == "missing"
    ));
    assert!(matches!(
        map.try_get_value("missing").unwrap_err().within("X"),
        PBXError::MissingField { key, object: Some(id) } if key == "missing" && id == "X"
    ));
    assert!(matches!(
        map.try_get_string("count").unwrap_err().within("X"),
        PBXError::TypeMismatch { expected: PBXValueKind::String, actual: PBXValueKind::Number }
    ));
    assert!(map.try_get_string("missing").unwrap_err().is_missing_field("missing"));
    assert!(!map.try_get_string("missing").unwrap_err().is_missing_field("name"));
    assert!(matches!(
        map.try_get_string("count"),
        Err(PBXError::TypeMismatch { expected: PBXValueKind::String, actual: PBXValueKind::Number })
    ));
    assert!(matches!(
        map.try_get_object("list"),
        Err(PBXError::TypeMismatch { expected: PBXValueKind::Object, actual: PBXValueKind::Vec })
    ));
}

#[test]
fn map_insert_and_remove() {
    let mut map = sample();
    map.insert("count".to_string(), PBXValue::Number(4));
    assert_eq!(map.len(), 9);
    assert_eq!(map.position("count"), Some(1));
    assert_eq!(map.get_number("count"), Some(&4));
    map.insert("new".to_string(), text("field"));
    assert_eq!(map.len(), 10);
    assert_eq!(map.position("new"), Some(9));

    assert_eq!(map.remove_value("new"), Some(text("field")));
    assert_eq!(map.remove_value("new"), None);
    assert_eq!(map.len(), 9);
    assert_eq!(map.remove_string("name"), Some("App".to_string()));
    assert_eq!(map.position("count"), Some(0));
    // a field of another variant is taken out all the same
    assert_eq!(map.remove_string("count"), None);
    assert!(!map.contains_key("count"));
    assert_eq!(map.remove_number("on"), Some(1));
    assert_eq!(map.remove_bool("flag"), Some(true));
    assert_eq!(map.remove_kind("isa"), Some(PBXObjectKind::PBXProject));
    assert_eq!(map.remove_vec("list").unwrap().len(), 3);
    assert_eq!(map.remove_object("inner").unwrap().len(), 1);
    assert_eq!(map.len(), 2);

    let mut map = sample();
    assert_eq!(map.try_remove_value("name").unwrap(), text("App"));
    assert!(map.try_remove_value("name").unwrap_err().is_missing_field("name"));
    assert_eq!(map.try_remove_number("count").unwrap(), 3);
    assert!(matches!(
        map.try_remove_string("on"),
        Err(PBXError::TypeMismatch { expected: PBXValueKind::String, actual: PBXValueKind::Number })
    ));
    assert!(!map.contains_key("on"));
    assert_eq!(map.try_remove_bool("flag").unwrap(), true);
    assert_eq!(map.try_remove_kind("isa").unwrap(), PBXObjectKind::PBXProject);
    assert_eq!(map.try_remove_vec("list").unwrap().len(), 3);
    assert_eq!(map.try_remove_object("inner").unwrap().len(), 1);
    assert!(map.try_remove_object("inner").unwrap_err().is_missing_field("inner"));
}

#[test]
fn later_entry_wins_in_new() {
    let map = PBXHashMap::new(vec![
        ("a".to_string(), PBXValue::Number(1)),
        ("b".to_string(), PBXValue::Number(2)),
        ("a".to_string(), PBXValue::Number(3)),
    ]);
    assert_eq!(map.len(), 2);
    assert_eq!(map.get_number("a"), Some(&3));
    assert_eq!(map.position("a"), Some(0));
    assert_eq!(map.position("b"), Some(1));
}

#[test]
fn arrays_of_strings() {
    let list = PBXVec::new(vec![text("a"), PBXValue::Number(1), text("b")]);
    assert_eq!(list.len(), 3);
    assert_eq!(list.as_vec_strings(), vec![&"a".to_string(), &"b".to_string()]);
    assert_eq!(list.to_vec_strings(), vec!["a".to_string(), "b".to_string()]);
    assert!(matches!(
        list.try_into_vec_strings(),
        Err(PBXError::TypeMismatch { expected: PBXValueKind::String, actual: PBXValueKind::Number })
    ));
    let list = PBXVec::new(vec![text("a"), text("b")]);
    assert_eq!(list.try_into_vec_strings().unwrap(), vec!["a".to_string(), "b".to_string()]);
    assert_eq!(PBXVec::new(vec![]).try_into_vec_strings().unwrap(), Vec::<String>::new());
}

#[test]
fn equality() {
    assert_eq!(sample(), sample());
    let mut other = sample();
    other.insert("name".to_string(), text("Other"));
    assert_ne!(sample(), other);
    assert_ne!(text("1"), PBXValue::Number(1));
    assert_ne!(text("a"), text("b"));
    assert_ne!(
        PBXValue::Vec(PBXVec::new(vec![text("a")])),
        PBXValue::Vec(PBXVec::new(vec![text("a"), text("a")]))
    );
    assert_ne!(
        PBXValue::Vec(PBXVec::new(vec![text("a"), text("b")])),
        PBXValue::Vec(PBXVec::new(vec![text("b"), text("a")]))
    );
    assert_eq!(PBXValue::Null, PBXValue::Null);
}

#[test]
fn defaults() {
    assert_eq!(PBXHashMap::default().len(), 0);
    assert_eq!(PBXVec::default().len(), 0);
    assert_eq!(PBXHashMap::default(), PBXHashMap::empty());
    assert_eq!(xcodeproj::collection::PBXObjectCollection::default().len(), 0);
    let reference = xcodeproj::fs_reference::PBXFSReference::default();
    assert_eq!(reference.id, "");
    assert!(reference.is_file_group());
    assert_eq!(reference.name(), None);
    assert_eq!(reference.path(), None);
    assert_eq!(*reference.source_tree(), xcodeproj::source_tree::PBXSourceTree::Unspecified);
    assert!(reference.children.is_empty());
    assert!(reference == xcodeproj::fs_reference::PBXFSReference::default());
}

#[test]
fn deep_search() {
    let map = sample();
    assert_eq!(map.extract_value("deep"), Some(&text("down")));
    assert_eq!(map.extract_value("name"), Some(&text("App")));
    assert_eq!(map.extract_value("missing"), None);
    assert_eq!(map.extract_value_in_objects("deep"), Some(&text("down")));
    assert_eq!(map.extract_value_in_objects("name"), None);
}
