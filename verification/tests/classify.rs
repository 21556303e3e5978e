use jni_bindgen::errors::ClassificationError;
use jni_bindgen::java_type::JavaType;
use jni_bindgen::type_expr::{classify, TypeExpr};

fn named(name: &str) -> TypeExpr {
    TypeExpr::Named {
        name: name.to_string(),
        first_arg: None,
        last_arg: None,
        text: name.to_string(),
    }
}

fn generic1(name: &str, arg: TypeExpr) -> TypeExpr {
    let text = format!("{} < {} >", name, arg_text(&arg));
    TypeExpr::Named {
        name: name.to_string(),
        first_arg: Some(Box::new(clone_expr(&arg))),
        last_arg: Some(Box::new(arg)),
        text,
    }
}

fn generic2(name: &str, first: TypeExpr, last: TypeExpr) -> TypeExpr {
    let text = format!("{} < {} , {} >", name, arg_text(&first), arg_text(&last));
    TypeExpr::Named {
        name: name.to_string(),
        first_arg: Some(Box::new(first)),
        last_arg: Some(Box::new(last)),
        text,
    }
}

fn arg_text(e: &TypeExpr) -> String {
    match e {
        TypeExpr::Named { text, .. } => text.clone(),
        TypeExpr::Ref { text, .. } => text.clone(),
        TypeExpr::TraitObj { path_text, .. } => path_text.clone(),
        TypeExpr::Unit => "()".to_string(),
    }
}

fn clone_expr(e: &TypeExpr) -> TypeExpr {
    match e {
        TypeExpr::Named { name, first_arg, last_arg, text } => TypeExpr::Named {
            name: name.clone(),
            first_arg: first_arg.as_ref().map(|a| Box::new(clone_expr(a))),
            last_arg: last_arg.as_ref().map(|a| Box::new(clone_expr(a))),
            text: text.clone(),
        },
        TypeExpr::Ref { mutable, inner, text } => TypeExpr::Ref {
            mutable: *mutable,
            inner: Box::new(clone_expr(inner)),
            text: text.clone(),
        },
        TypeExpr::TraitObj { has_trait_bound, segments, has_lifetime, path_text } => {
            TypeExpr::TraitObj {
                has_trait_bound: *has_trait_bound,
                segments: segments.clone(),
                has_lifetime: *has_lifetime,
                path_text: path_text.clone(),
            }
        }
        TypeExpr::Unit => TypeExpr::Unit,
    }
}

#[test]
fn primitives_classify_to_their_categories() {
    assert!(matches!(classify(&named("i32"), None), Ok(JavaType::Integer)));
    assert!(matches!(classify(&named("i64"), None), Ok(JavaType::Long)));
    assert!(matches!(classify(&named("bool"), None), Ok(JavaType::Boolean)));
    assert!(matches!(classify(&named("f32"), None), Ok(JavaType::Float)));
    assert!(matches!(classify(&named("f64"), None), Ok(JavaType::Double)));
    assert!(matches!(classify(&named("i16"), None), Ok(JavaType::Short)));
    assert!(matches!(classify(&named("u16"), None), Ok(JavaType::Char)));
    assert!(matches!(classify(&named("i8"), None), Ok(JavaType::Byte)));
}

#[test]
fn text_receiver_unit_and_object_classify() {
    assert!(matches!(classify(&named("String"), None), Ok(JavaType::Text)));
    assert!(matches!(classify(&named("Self"), None), Ok(JavaType::This)));
    assert!(matches!(classify(&TypeExpr::Unit, None), Ok(JavaType::Void)));
    assert!(matches!(classify(&named("JObject"), None), Ok(JavaType::Object)));
}

#[test]
fn optional_of_optional_is_rejected_for_every_inner_type() {
    for inner in ["i32", "String", "bool", "Foo"] {
        let e = generic1("Option", generic1("Option", named(inner)));
        assert!(classify(&e, None).is_err(), "Optional<Optional<{inner}>> must fail");
    }
    let e = generic1("Option", generic1("Option", named("i32")));
    assert!(matches!(classify(&e, None), Err(ClassificationError::NestedOptional)));
}

#[test]
fn fallible_of_fallible_is_rejected_for_every_inner_type() {
    for inner in ["i32", "String", "()", "Bar"] {
        let e = generic1("Result", generic1("Result", named(inner)));
        assert!(classify(&e, None).is_err(), "Fallible<Fallible<{inner}>> must fail");
    }
    let e = generic1("Result", generic1("Result", named("i64")));
    assert!(matches!(classify(&e, None), Err(ClassificationError::NestedFallible)));
}

#[test]
fn mutable_references_are_rejected_except_the_environment() {
    let r = TypeExpr::Ref {
        mutable: true,
        inner: Box::new(named("Foo")),
        text: "& mut Foo".to_string(),
    };
    assert!(matches!(classify(&r, None), Err(ClassificationError::MutableReference)));
    let env = TypeExpr::Ref {
        mutable: true,
        inner: Box::new(named("JNIEnv")),
        text: "& mut JNIEnv".to_string(),
    };
    assert!(matches!(classify(&env, None), Ok(JavaType::Env { mutable: true })));
    let env2 = TypeExpr::Ref {
        mutable: false,
        inner: Box::new(named("JNIEnv")),
        text: "& JNIEnv".to_string(),
    };
    assert!(matches!(classify(&env2, None), Ok(JavaType::Env { mutable: false })));
}

#[test]
fn shared_references_classify_as_object_references() {
    let r = TypeExpr::Ref {
        mutable: false,
        inner: Box::new(named("RustStruct")),
        text: "& RustStruct".to_string(),
    };
    match classify(&r, None) {
        Ok(JavaType::Reference { target }) => assert_eq!(target, "RustStruct"),
        other => panic!("unexpected: {other:?}"),
    }
}

#[test]
fn unknown_shapes_are_rejected_with_their_text() {
    match classify(&named("PathBuf"), None) {
        Err(ClassificationError::UnsupportedType(t)) => assert_eq!(t, "PathBuf"),
        other => panic!("unexpected: {other:?}"),
    }
}

#[test]
fn containers_classify_recursively() {
    let v = generic1("Vec", named("String"));
    match classify(&v, None) {
        Ok(JavaType::ListOf { elem, elem_rust }) => {
            assert!(matches!(*elem, JavaType::Text));
            assert_eq!(elem_rust, "String");
        }
        other => panic!("unexpected: {other:?}"),
    }
    let m = generic2("HashMap", named("String"), named("i32"));
    match classify(&m, None) {
        Ok(JavaType::MapOf { key, value, key_rust, value_rust }) => {
            assert!(matches!(*key, JavaType::Text));
            assert!(matches!(*value, JavaType::Integer));
            assert_eq!(key_rust, "String");
            assert_eq!(value_rust, "i32");
        }
        other => panic!("unexpected: {other:?}"),
    }
}

#[test]
fn optional_allows_only_its_allow_list() {
    assert!(classify(&generic1("Option", named("i32")), None).is_ok());
    assert!(classify(&generic1("Option", named("String")), None).is_ok());
    assert!(classify(&generic1("Option", generic1("Vec", named("i32"))), None).is_ok());
    assert!(matches!(
        classify(&generic1("Option", named("JObject")), None),
        Err(ClassificationError::UnsupportedOptional)
    ));
    assert!(matches!(
        classify(&generic1("Option", named("Self")), None),
        Err(ClassificationError::UnsupportedOptional)
    ));
}

#[test]
fn receiver_nested_in_containers_is_rejected() {
    assert!(matches!(
        classify(&generic1("Vec", named("Self")), None),
        Err(ClassificationError::NestedReceiver)
    ));
    assert!(classify(&generic1("Result", named("Self")), None).is_ok());
}

#[test]
fn boxed_callbacks_derive_or_take_their_class_name() {
    let obj = TypeExpr::TraitObj {
        has_trait_bound: true,
        segments: vec!["crate".to_string(), "listeners".to_string(), "OnEvent".to_string()],
        has_lifetime: true,
        path_text: "crate :: listeners :: OnEvent".to_string(),
    };
    let e = generic1("Box", obj);
    match classify(&e, None) {
        Ok(JavaType::Interface { rust_path, class_name }) => {
            assert_eq!(class_name, "listeners.OnEvent");
            assert_eq!(rust_path, "dyn crate :: listeners :: OnEvent + 'local");
        }
        other => panic!("unexpected: {other:?}"),
    }
    let e2 = generic1("Box", TypeExpr::TraitObj {
        has_trait_bound: true,
        segments: vec!["OnEvent".to_string()],
        has_lifetime: true,
        path_text: "OnEvent".to_string(),
    });
    let over = "com.example.Callback".to_string();
    match classify(&e2, Some(&over)) {
        Ok(JavaType::Interface { class_name, .. }) => assert_eq!(class_name, "com.example.Callback"),
        other => panic!("unexpected: {other:?}"),
    }
}

#[test]
fn boxed_callbacks_need_a_lifetime_and_a_trait() {
    let no_lifetime = generic1("Box", TypeExpr::TraitObj {
        has_trait_bound: true,
        segments: vec!["OnEvent".to_string()],
        has_lifetime: false,
        path_text: "OnEvent".to_string(),
    });
    assert!(matches!(
        classify(&no_lifetime, None),
        Err(ClassificationError::BoxWithoutLifetime)
    ));
    let no_trait = generic1("Box", named("String"));
    assert!(matches!(classify(&no_trait, None), Err(ClassificationError::BoxWithoutTrait)));
    let no_name = generic1("Box", TypeExpr::TraitObj {
        has_trait_bound: false,
        segments: vec![],
        has_lifetime: true,
        path_text: "".to_string(),
    });
    assert!(matches!(classify(&no_name, None), Err(ClassificationError::MissingClassName)));
}
