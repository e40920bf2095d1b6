use xcodeproj::error::PBXError;
use xcodeproj::root::PBXRootObject;

fn load(objects: &str) -> PBXRootObject {
    let text = format!(
        "{{ archiveVersion = 1; objectVersion = 56; rootObject = P; objects = {{
            P = {{ isa = PBXProject; attributes = {{ }}; buildConfigurationList = CL; compatibilityVersion = X;
                  hasScannedForEncodings = 0; knownRegions = (en, ); mainGroup = MAIN; projectDirPath = X; targets = ( ); }};
            CL = {{ isa = XCConfigurationList; defaultConfigurationIsVisible = 0; }};
            {objects}
        }}; }}"
    );
    PBXRootObject::try_from_str(&text).unwrap()
}

fn full_path(root: &PBXRootObject, id: &str, source_root: &str) -> Result<String, PBXError> {
    let reference = root.objects().get_fs_object(id).unwrap();
    reference.full_path(root.objects(), source_root)
}

#[test]
fn main_group_without_path_is_the_source_root() {
    let root = load("MAIN = { isa = PBXGroup; sourceTree = \"<group>\"; };");
    assert_eq!(full_path(&root, "MAIN", "/a/b").unwrap(), "/a/b");
    assert_eq!(full_path(&root, "MAIN", "").unwrap(), "");
    assert_eq!(full_path(&root, "MAIN", "relative/root").unwrap(), "relative/root");
}

#[test]
fn main_group_with_path() {
    let root = load("MAIN = { isa = PBXGroup; path = App; sourceTree = \"<group>\"; };");
    assert_eq!(full_path(&root, "MAIN", "/a/b").unwrap(), "/a/b/App");
    assert_eq!(full_path(&root, "MAIN", "/a/b/").unwrap(), "/a/b/App");
    assert_eq!(full_path(&root, "MAIN", "").unwrap(), "App");
}

#[test]
fn file_in_nested_groups() {
    let root = load(
        "MAIN = { isa = PBXGroup; children = (SRC, ); sourceTree = \"<group>\"; };
         SRC = { isa = PBXGroup; children = (LOG, ); path = Source; sourceTree = \"<group>\"; };
         LOG = { isa = PBXFileReference; path = Log.swift; sourceTree = \"<group>\"; };",
    );
    assert_eq!(full_path(&root, "LOG", "/a/b").unwrap(), "/a/b/Source/Log.swift");
    assert_eq!(full_path(&root, "SRC", "/a/b").unwrap(), "/a/b/Source");
}

#[test]
fn path_with_several_parts() {
    let root = load(
        "MAIN = { isa = PBXGroup; children = (F, G, H, ); sourceTree = \"<group>\"; };
         F = { isa = PBXFileReference; path = \"x/y/z.swift\"; sourceTree = \"<group>\"; };
         G = { isa = PBXFileReference; path = \"/lead//double/trail/\"; sourceTree = \"<group>\"; };
         H = { isa = PBXFileReference; path = \"\"; sourceTree = \"<group>\"; };",
    );
    assert_eq!(full_path(&root, "F", "/r").unwrap(), "/r/x/y/z.swift");
    assert_eq!(full_path(&root, "G", "/r").unwrap(), "/r/lead/double/trail");
    assert_eq!(full_path(&root, "H", "/r").unwrap(), "/r");
    assert_eq!(full_path(&root, "G", "").unwrap(), "lead/double/trail");
}

#[test]
fn absolute_and_source_root() {
    let root = load(
        "MAIN = { isa = PBXGroup; children = (DEEP, ); sourceTree = \"<group>\"; };
         DEEP = { isa = PBXGroup; children = (ABS, SRC, NOABS, NOSRC, ); path = Deep; sourceTree = \"<group>\"; };
         ABS = { isa = PBXFileReference; path = \"/usr/lib/libz.dylib\"; sourceTree = \"<absolute>\"; };
         SRC = { isa = PBXFileReference; path = \"Config/App.xcconfig\"; sourceTree = SOURCE_ROOT; };
         NOABS = { isa = PBXFileReference; name = a; sourceTree = \"<absolute>\"; };
         NOSRC = { isa = PBXFileReference; name = s; sourceTree = SOURCE_ROOT; };",
    );
    assert_eq!(full_path(&root, "ABS", "/r").unwrap(), "/usr/lib/libz.dylib");
    assert_eq!(full_path(&root, "SRC", "/r").unwrap(), "/r/Config/App.xcconfig");
    assert!(full_path(&root, "NOABS", "/r").unwrap_err().is_missing_field("path"));
    assert!(matches!(
        full_path(&root, "NOABS", "/r"),
        Err(PBXError::MissingField { object: Some(id), .. }) if id == "NOABS"
    ));
    assert!(full_path(&root, "NOSRC", "/r").unwrap_err().is_missing_field("path"));
}

#[test]
fn other_source_trees_are_not_resolved() {
    let root = load(
        "MAIN = { isa = PBXGroup; children = (A, B, C, D, E, ); sourceTree = \"<group>\"; };
         A = { isa = PBXFileReference; path = a; sourceTree = BUILT_PRODUCTS_DIR; };
         B = { isa = PBXFileReference; path = b; sourceTree = SDKROOT; };
         C = { isa = PBXFileReference; path = c; sourceTree = DEVELOPER_DIR; };
         D = { isa = PBXFileReference; path = d; sourceTree = MY_TREE; };
         E = { isa = PBXFileReference; path = e; };",
    );
    for id in ["A", "B", "C", "D", "E"] {
        match full_path(&root, id, "/r") {
            Err(PBXError::UnsupportedSourceTree { id: named }) => assert_eq!(named, id),
            other => panic!("{id}: {other:?}"),
        }
    }
}

#[test]
fn reference_outside_every_group() {
    let root = load(
        "MAIN = { isa = PBXGroup; sourceTree = \"<group>\"; };
         LOST = { isa = PBXFileReference; path = lost.swift; sourceTree = \"<group>\"; };",
    );
    match full_path(&root, "LOST", "/r") {
        Err(PBXError::UnresolvedPath { id }) => assert_eq!(id, "LOST"),
        other => panic!("{other:?}"),
    }
}

#[test]
fn groups_in_a_circle() {
    let root = load(
        "MAIN = { isa = PBXGroup; sourceTree = \"<group>\"; };
         A = { isa = PBXGroup; children = (B, ); path = a; sourceTree = \"<group>\"; };
         B = { isa = PBXGroup; children = (A, F, ); path = b; sourceTree = \"<group>\"; };
         F = { isa = PBXFileReference; path = f.swift; sourceTree = \"<group>\"; };",
    );
    // the circle is cut where it closes: the children of a group stop at a
    // group that is being built
    let a = root.objects().get_group("A").unwrap();
    assert_eq!(a.children.len(), 1);
    assert_eq!(a.children[0].id, "B");
    assert_eq!(a.children[0].children.len(), 1);
    assert_eq!(a.children[0].children[0].id, "F");
    assert!(full_path(&root, "F", "/r").is_err());
}

#[test]
fn same_file_in_two_groups_lies_in_its_own() {
    let root = load(
        "MAIN = { isa = PBXGroup; children = (ONE, TWO, ); sourceTree = \"<group>\"; };
         ONE = { isa = PBXGroup; children = (F1, ); path = one; sourceTree = \"<group>\"; };
         TWO = { isa = PBXGroup; children = (F2, ); path = two; sourceTree = \"<group>\"; };
         F1 = { isa = PBXFileReference; path = Info.plist; sourceTree = \"<group>\"; };
         F2 = { isa = PBXFileReference; path = Info.plist; sourceTree = \"<group>\"; };",
    );
    // two references that differ in nothing but their identifier are two
    assert_eq!(full_path(&root, "F1", "/r").unwrap(), "/r/one/Info.plist");
    assert_eq!(full_path(&root, "F2", "/r").unwrap(), "/r/two/Info.plist");
    let f1 = root.objects().get_file("F1").unwrap();
    let f2 = root.objects().get_file("F2").unwrap();
    assert!(f1 != f2);
    assert!(f1 == root.objects().get_file("F1").unwrap());
    assert!(root.objects().get_group("ONE").unwrap().has_child_like(&f1));
    assert!(!root.objects().get_group("ONE").unwrap().has_child_like(&f2));
    assert!(root.objects().get_group("TWO").unwrap().has_child_like(&f2));
    assert!(!f1.is_main_group_in(root.objects()));
    assert!(root.objects().get_group("MAIN").unwrap().is_main_group_in(root.objects()));
}
