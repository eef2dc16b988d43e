use adhesive::util::{find_class_name, update_java_code};
use adhesive::JvmFunctionError;

const BASE_PREFIX: &str = "com.github.milenkovicm.generated.p";

#[test]
fn should_find_class_name() {
    let code = r#"
        import java.util.List;
        public class  ClassName1 {
            // this is a comment
        }
        "#;
    assert_eq!("ClassName1", find_class_name(code).unwrap())
}

#[test]
fn find_class_name_takes_first_declaration() {
    let code = "class First {} class Second {}";
    assert_eq!("First", find_class_name(code).unwrap());
}

#[test]
fn find_class_name_matches_inside_word() {
    // the keyword is found anywhere, as a plain text match
    let code = "subclass Foo";
    assert_eq!("Foo", find_class_name(code).unwrap());
}

#[test]
fn find_class_name_accepts_digits_and_underscore() {
    let code = "public class _My_Class9 extends Base {}";
    assert_eq!("_My_Class9", find_class_name(code).unwrap());
}

#[test]
fn find_class_name_captures_unicode_identifiers() {
    assert_eq!("Ümlaut", find_class_name("public class Ümlaut {}").unwrap());
    assert_eq!("Straße", find_class_name("class Straße extends Base {}").unwrap());
}

#[test]
fn find_class_name_accepts_any_whitespace_run() {
    assert_eq!("Tabbed", find_class_name("class\tTabbed").unwrap());
    assert_eq!("Spread", find_class_name("class \t\n Spread {}").unwrap());
    // U+00A0 is a white-space character too
    assert_eq!("Wide", find_class_name("class\u{00A0}Wide").unwrap());
}

#[test]
fn find_class_name_needs_whitespace_and_identifier() {
    assert!(find_class_name("no declaration here").is_none());
    assert!(find_class_name("classX {}").is_none());
    assert!(find_class_name("class ").is_none());
    assert!(find_class_name("").is_none());
}

#[test]
fn update_java_code_rewrites_source_and_builds_fqn() {
    let code = "public class NewClass extends Base {\n}";
    let (rewritten, fqn) = update_java_code(code).unwrap();

    assert!(fqn.starts_with(BASE_PREFIX));
    assert!(fqn.ends_with(".NewClass"));
    let package = &fqn[..fqn.len() - ".NewClass".len()];
    let suffix = &package[BASE_PREFIX.len()..];
    assert_eq!(6, suffix.len());
    assert!(suffix.chars().all(|c| c.is_ascii_lowercase()));

    assert_eq!(format!("package {};\n{}", package, code), rewritten);
}

#[test]
fn update_java_code_rejects_text_without_class() {
    let result = update_java_code("int x = 0;");
    assert!(matches!(result, Err(JvmFunctionError::SourceParseError(_))));
}

#[test]
fn update_java_code_gives_distinct_names_for_identical_source() {
    let code = "public class Twin {}";
    let (_, first) = update_java_code(code).unwrap();
    let (_, second) = update_java_code(code).unwrap();
    assert_ne!(first, second);
}
