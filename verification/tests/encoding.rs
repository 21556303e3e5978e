use jni_bindgen::java_type::JavaType;

fn boxed(t: JavaType) -> Box<JavaType> {
    Box::new(t)
}

#[test]
fn primitive_descriptors_match_the_grammar() {
    assert_eq!(JavaType::Integer.as_jni_declaration().unwrap(), "I");
    assert_eq!(JavaType::Long.as_jni_declaration().unwrap(), "J");
    assert_eq!(JavaType::Boolean.as_jni_declaration().unwrap(), "Z");
    assert_eq!(JavaType::Float.as_jni_declaration().unwrap(), "F");
    assert_eq!(JavaType::Double.as_jni_declaration().unwrap(), "D");
    assert_eq!(JavaType::Short.as_jni_declaration().unwrap(), "S");
    assert_eq!(JavaType::Char.as_jni_declaration().unwrap(), "C");
    assert_eq!(JavaType::Byte.as_jni_declaration().unwrap(), "B");
    assert_eq!(JavaType::Text.as_jni_declaration().unwrap(), "Ljava/lang/String;");
    assert_eq!(JavaType::Void.as_jni_declaration().unwrap(), "V");
}

#[test]
fn primitive_declarations_match_their_java_names() {
    assert_eq!(JavaType::Integer.as_declaration().unwrap(), "int");
    assert_eq!(JavaType::Long.as_declaration().unwrap(), "long");
    assert_eq!(JavaType::Boolean.as_declaration().unwrap(), "boolean");
    assert_eq!(JavaType::Float.as_declaration().unwrap(), "float");
    assert_eq!(JavaType::Double.as_declaration().unwrap(), "double");
    assert_eq!(JavaType::Short.as_declaration().unwrap(), "short");
    assert_eq!(JavaType::Char.as_declaration().unwrap(), "char");
    assert_eq!(JavaType::Byte.as_declaration().unwrap(), "byte");
    assert_eq!(JavaType::Text.as_declaration().unwrap(), "String");
    assert_eq!(JavaType::This.as_declaration().unwrap(), "long");
}

#[test]
fn boxed_optionals_use_the_wrapper_classes() {
    let opt_int = JavaType::Optional { inner: boxed(JavaType::Integer) };
    assert_eq!(opt_int.as_declaration().unwrap(), "Integer");
    assert_eq!(opt_int.as_jni_declaration().unwrap(), "Ljava/lang/Integer;");
    let opt_char = JavaType::Optional { inner: boxed(JavaType::Char) };
    assert_eq!(opt_char.as_declaration().unwrap(), "Character");
    assert_eq!(opt_char.as_jni_declaration().unwrap(), "Ljava/lang/Character;");
    let opt_text = JavaType::Optional { inner: boxed(JavaType::Text) };
    assert_eq!(opt_text.as_declaration().unwrap(), "String");
}

#[test]
fn error_sentinels_follow_the_table() {
    assert_eq!(JavaType::Text.error_return_val().unwrap(), "std::ptr::null_mut()");
    assert_eq!(
        JavaType::Optional { inner: boxed(JavaType::Integer) }.error_return_val().unwrap(),
        "std::ptr::null_mut()"
    );
    assert_eq!(JavaType::Object.error_return_val().unwrap(), "std::ptr::null_mut()");
    assert_eq!(
        JavaType::ListOf { elem: boxed(JavaType::Text), elem_rust: "String".to_string() }
            .error_return_val()
            .unwrap(),
        "std::ptr::null_mut()"
    );
    assert_eq!(JavaType::This.error_return_val().unwrap(), "0");
    assert_eq!(JavaType::Integer.error_return_val().unwrap(), "0");
    assert_eq!(JavaType::Long.error_return_val().unwrap(), "0");
    assert_eq!(JavaType::Short.error_return_val().unwrap(), "0");
    assert_eq!(JavaType::Char.error_return_val().unwrap(), "0");
    assert_eq!(JavaType::Byte.error_return_val().unwrap(), "0");
    assert_eq!(JavaType::Boolean.error_return_val().unwrap(), "jni::sys::JNI_FALSE");
    assert_eq!(JavaType::Float.error_return_val().unwrap(), "0.0");
    assert_eq!(JavaType::Double.error_return_val().unwrap(), "0.0");
    assert_eq!(JavaType::Void.error_return_val().unwrap(), "");
    let fallible_int = JavaType::Fallible {
        inner: boxed(JavaType::Integer),
        rust_text: "Result < i32 >".to_string(),
    };
    assert_eq!(fallible_int.error_return_val().unwrap(), "0");
    assert!(JavaType::Env { mutable: true }.error_return_val().is_err());
    assert!(JavaType::Reference { target: "Foo".to_string() }.error_return_val().is_err());
}

#[test]
fn imports_are_collected_without_duplicates() {
    let t = JavaType::MapOf {
        key: boxed(JavaType::ListOf { elem: boxed(JavaType::Text), elem_rust: "String".into() }),
        value: boxed(JavaType::ListOf { elem: boxed(JavaType::Integer), elem_rust: "i32".into() }),
        key_rust: "Vec < String >".to_string(),
        value_rust: "Vec < i32 >".to_string(),
    };
    assert_eq!(t.get_imports(), vec!["java.util.Map".to_string(), "java.util.List".to_string()]);
    let f = JavaType::Fallible {
        inner: boxed(JavaType::Text),
        rust_text: "Result < String >".to_string(),
    };
    assert_eq!(
        f.get_imports(),
        vec!["com.github.markusjx.jnibindgen.NativeExecutionException".to_string()]
    );
}

#[test]
fn fallible_adds_the_throws_clause() {
    let f = JavaType::Fallible {
        inner: boxed(JavaType::Integer),
        rust_text: "Result < i32 >".to_string(),
    };
    assert_eq!(f.throws().unwrap(), " throws NativeExecutionException");
    assert!(JavaType::Integer.throws().is_none());
    assert!(f.is_void(true) == false);
    let fv = JavaType::Fallible { inner: boxed(JavaType::Void), rust_text: "Result".to_string() };
    assert!(fv.is_void(true));
    assert!(!fv.is_void(false));
}

#[test]
fn interface_arguments_render_rust_types() {
    assert_eq!(JavaType::Integer.as_interface_arg(), "i32");
    assert_eq!(JavaType::Text.as_interface_arg(), "String");
    let opt = JavaType::Optional { inner: boxed(JavaType::Long) };
    assert_eq!(opt.as_interface_arg(), "Option<i64>");
    let v = JavaType::ListOf { elem: boxed(JavaType::Text), elem_rust: "String".into() };
    assert_eq!(v.as_interface_arg(), "Vec<String>");
}
