use b_agent::bridge::{JavaBridge, RuntimeAttachment, get_save_location};
use b_agent::client::get_client_classes_path;
use b_agent::strutil::{concat_strs, entry_to_class_name, replace_chars, str_ends_with, str_eq};

#[test]
fn test_save_location() {
    // check the save location
    let path = get_save_location("C:\\agents\\b_agent");
    println!("save location: {}", path);
}

#[test]
fn test_client_class_path() {
    // check the client classes path
    let path = get_client_classes_path("C:\\agents");
    println!("client classes path: {}", path);
}

#[test]
fn save_location_appends_dump_directory() {
    assert_eq!(get_save_location("C:\\agents\\b_agent"), "C:\\agents\\b_agent\\dumped\\");
}

#[test]
fn client_classes_path_names_the_bundled_archive() {
    assert_eq!(
        get_client_classes_path("C:\\agents"),
        "C:\\agents\\b_client\\build\\libs\\b_client-1.0-SNAPSHOT-all.jar"
    );
}

#[test]
fn save_path_substitutes_package_separators() {
    let bridge = JavaBridge::new(RuntimeAttachment { id: 1 }, "C:\\agent".to_string());
    assert_eq!(
        bridge.save_path_for("com.example.Foo"),
        "C:\\agent\\dumped\\com\\example\\Foo.class"
    );
    assert_eq!(bridge.save_path_for("Bare"), "C:\\agent\\dumped\\Bare.class");
}

#[test]
fn entry_names_become_dotted_class_names() {
    assert_eq!(entry_to_class_name("com/example/Foo.class"), "com.example.Foo");
    assert_eq!(entry_to_class_name("Bare.class"), "Bare");
    assert_eq!(entry_to_class_name("META-INF/MANIFEST.MF"), "META-INF.MANIFEST.MF");
    assert_eq!(entry_to_class_name(""), "");
}

#[test]
fn string_helpers_behave() {
    assert!(str_eq("abc", "abc"));
    assert!(!str_eq("abc", "abd"));
    assert!(!str_eq("abc", "ab"));
    assert!(str_ends_with("Foo.class", ".class"));
    assert!(!str_ends_with("Foo.clazz", ".class"));
    assert!(!str_ends_with("s", ".class"));
    assert_eq!(replace_chars("a.b.c", '.', "\\"), "a\\b\\c");
    assert_eq!(replace_chars("nodots", '.', "\\"), "nodots");
    assert_eq!(concat_strs("ab", "cd"), "abcd");
}
