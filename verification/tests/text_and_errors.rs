use jni_bindgen::code::format_code;
use jni_bindgen::errors::{ErrorClass, JNIError};
use jni_bindgen::objects::traits::IntoJNIResult;
use jni_bindgen::text::{
    contains_char, contains_str, ends_with, join_all, replace_char, split_lines, starts_with,
    str_eq, trim, usize_to_string, vec_contains_string,
};

#[test]
fn error_classes_map_to_their_jni_names() {
    assert_eq!(
        ErrorClass::NullPointer.into_class_name(),
        "java/lang/NullPointerException"
    );
    assert_eq!(ErrorClass::Runtime.into_class_name(), "java/lang/RuntimeException");
    assert_eq!(
        ErrorClass::NativeExecutionException.into_class_name(),
        "com/github/markusjx/jnibindgen/NativeExecutionException"
    );
    assert_eq!(
        ErrorClass::Any("com.example.MyException".to_string()).into_class_name(),
        "com/example/MyException"
    );
    assert_eq!(
        ErrorClass::Any("already/slashed".to_string()).into_class_name(),
        "already/slashed"
    );
}

#[test]
fn errors_keep_their_message_and_pick_classes_lazily() {
    let e = JNIError::runtime_error("boom".to_string());
    assert_eq!(e.message, "boom");
    assert!(e.class.is_none());
    let e = e.or_class(ErrorClass::IllegalState);
    assert!(matches!(e.class, Some(ErrorClass::IllegalState)));
    let e = e.or_class(ErrorClass::NullPointer);
    assert!(matches!(e.class, Some(ErrorClass::IllegalState)));
    let e2 = JNIError::new("msg".to_string(), Some(ErrorClass::Exception));
    assert_eq!(e2.message, "msg");
    assert!(matches!(e2.class, Some(ErrorClass::Exception)));
}

#[test]
fn text_helpers_behave_like_their_specifications() {
    assert!(str_eq("abc", "abc"));
    assert!(!str_eq("abc", "abd"));
    assert_eq!(replace_char("com.example.x", '.', '/'), "com/example/x");
    assert_eq!(replace_char("none", '.', '/'), "none");
    assert_eq!(
        join_all(&vec!["a".to_string(), "b".to_string(), "c".to_string()], ", "),
        "a, b, c"
    );
    assert_eq!(join_all(&vec![], ", "), "");
    assert!(contains_char("hello", 'e'));
    assert!(!contains_char("hello", 'z'));
    assert!(contains_str("public native void", "native"));
    assert!(!contains_str("public void", "native"));
    assert!(starts_with("public class X", "public class"));
    assert!(ends_with("block {", "{"));
    assert_eq!(trim("  spaced\t\n"), "spaced");
    assert_eq!(trim("   "), "");
    assert_eq!(
        split_lines("a\nb\n\nc"),
        vec!["a".to_string(), "b".to_string(), "".to_string(), "c".to_string()]
    );
    assert_eq!(split_lines(""), vec!["".to_string()]);
    assert_eq!(usize_to_string(0), "0");
    assert_eq!(usize_to_string(7), "7");
    assert_eq!(usize_to_string(12034), "12034");
    assert!(vec_contains_string(&vec!["x".to_string(), "y".to_string()], "y"));
    assert!(!vec_contains_string(&vec!["x".to_string()], "y"));
}

#[test]
fn the_indentation_pass_tracks_brace_depth() {
    assert_eq!(format_code("x {\ny;\n}"), "x {\n    y;\n}\n");
    assert_eq!(format_code("  a {  \n\n  b {\nc;\n}\n}"), "a {\n    b {\n        c;\n    }\n}\n");
    assert_eq!(format_code(""), "");
}

#[test]
fn diagnostics_describe_the_violated_contract() {
    assert_eq!(
        jni_bindgen::errors::ClassificationError::NestedOptional.message(),
        "Option must not be nested"
    );
    assert_eq!(
        jni_bindgen::errors::ClassificationError::UnsupportedType("PathBuf".to_string()).message(),
        "Unsupported type: 'PathBuf'"
    );
    assert_eq!(
        jni_bindgen::errors::ClassificationError::MissingNamespace.message(),
        "Missing namespace = \"...\" attribute"
    );
}

#[test]
fn runtime_results_convert_into_the_bridge_result() {
    let ok: Result<i32, JNIError> = Ok(7);
    assert!(matches!(ok.into_jni_result(), Ok(7)));
    let err: Result<i32, JNIError> =
        Err(JNIError::new("boom".to_string(), Some(ErrorClass::IllegalState)));
    let back = err.into_jni_result().unwrap_err();
    assert_eq!(back.message, "boom");
    assert!(matches!(back.class, Some(ErrorClass::IllegalState)));
    let plain: Result<i32, String> = Err("plain".to_string());
    let e = plain.into_jni_result().unwrap_err();
    assert_eq!(e.message, "plain");
    assert!(e.class.is_none());
}

#[test]
fn string_errors_lift_into_the_bridge_error() {
    let lifted: JNIError = JNIError::from("text error".to_string());
    assert_eq!(lifted.message, "text error");
    assert!(lifted.class.is_none());
}

#[test]
fn the_handle_check_decides_each_boundary_case() {
    assert!(jni_bindgen::errors::check_handle(false, 42, 42, "demo::Thing").is_ok());
    let null_err = jni_bindgen::errors::check_handle(true, 0, 0, "demo::Thing").unwrap_err();
    assert_eq!(null_err.message, "The pointer is null");
    assert!(matches!(null_err.class, Some(ErrorClass::NullPointer)));
    let mismatch = jni_bindgen::errors::check_handle(false, 1, 2, "demo::Thing").unwrap_err();
    assert_eq!(mismatch.message, "Expected object of type demo::Thing");
    assert!(matches!(mismatch.class, Some(ErrorClass::IllegalArgument)));
}
