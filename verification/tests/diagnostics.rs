use jni_bindgen::errors::ClassificationError;
use jni_bindgen::java_method::JavaMethod;
use jni_bindgen::java_type::JavaType;
use jni_bindgen::signature::{FnSig, Param, Receiver};
use jni_bindgen::type_expr::TypeExpr;

fn named(name: &str) -> TypeExpr {
    TypeExpr::Named {
        name: name.to_string(),
        first_arg: None,
        last_arg: None,
        text: name.to_string(),
    }
}

fn generic1(name: &str, arg: TypeExpr) -> TypeExpr {
    TypeExpr::Named {
        name: name.to_string(),
        first_arg: Some(Box::new(arg)),
        last_arg: None,
        text: format!("{name} < _ >"),
    }
}

fn sig(ident: &str, receiver: Option<Receiver>, params: Vec<Param>, output: Option<TypeExpr>) -> FnSig {
    FnSig {
        ident: ident.to_string(),
        receiver,
        params,
        output,
        doc_lines: vec![],
        rename: None,
        constructor: false,
        has_jni: true,
    }
}

fn param(name: &str, ty: TypeExpr) -> Param {
    Param { name: name.to_string(), ty, class_name_attr: None }
}

#[test]
fn fallible_arguments_are_rejected_at_emission() {
    let m = JavaMethod::from_sig(&sig(
        "bad",
        None,
        vec![param("r", generic1("Result", named("i32")))],
        None,
    ))
    .unwrap();
    assert!(matches!(
        m.as_jni_method("Java_ns_T_00024TNative", "T"),
        Err(ClassificationError::FallibleArgument)
    ));
}

#[test]
fn unit_arguments_are_rejected_at_emission() {
    let m = JavaMethod::from_sig(&sig("bad", None, vec![param("u", TypeExpr::Unit)], None)).unwrap();
    assert!(matches!(
        m.as_jni_method("Java_ns_T_00024TNative", "T"),
        Err(ClassificationError::VoidArgument)
    ));
}

#[test]
fn reference_returns_are_rejected_at_emission() {
    let m = JavaMethod::from_sig(&sig(
        "bad",
        None,
        vec![],
        Some(TypeExpr::Ref {
            mutable: false,
            inner: Box::new(named("Foo")),
            text: "& Foo".to_string(),
        }),
    ))
    .unwrap();
    assert!(matches!(
        m.as_jni_method("Java_ns_T_00024TNative", "T"),
        Err(ClassificationError::ReferenceReturned)
    ));
}

#[test]
fn descriptor_errors_name_the_offending_shape() {
    assert!(matches!(
        JavaType::This.as_jni_declaration(),
        Err(ClassificationError::SelfArgument)
    ));
    assert!(matches!(
        JavaType::Env { mutable: true }.as_jni_declaration(),
        Err(ClassificationError::EnvNotAType)
    ));
    assert!(matches!(
        JavaType::Reference { target: "Foo".to_string() }.as_jni_declaration(),
        Err(ClassificationError::ReferencePassed)
    ));
    let nested = JavaType::Optional {
        inner: Box::new(JavaType::Optional { inner: Box::new(JavaType::Integer) }),
    };
    assert!(matches!(
        nested.as_jni_declaration(),
        Err(ClassificationError::NestedOptional)
    ));
    let callback = JavaType::Interface {
        rust_path: "dyn OnEvent + 'local".to_string(),
        class_name: "com.example.OnEvent".to_string(),
    };
    assert!(matches!(
        callback.as_jni_return_type(),
        Err(ClassificationError::InterfaceReturned)
    ));
}

#[test]
fn trait_method_shape_violations_are_named() {
    let env_ref = |mutable: bool| TypeExpr::Ref {
        mutable,
        inner: Box::new(named("JNIEnv")),
        text: if mutable { "& mut JNIEnv".to_string() } else { "& JNIEnv".to_string() },
    };
    let immutable_env = JavaMethod::from_sig(&sig(
        "apply",
        Some(Receiver::ByRef { mutable: false }),
        vec![param("env", env_ref(false))],
        Some(generic1("Result", named("String"))),
    ))
    .unwrap();
    assert!(matches!(
        immutable_env.as_trait_method(),
        Err(ClassificationError::TraitMethodEnvNotMutable)
    ));
    let mutable_receiver = JavaMethod::from_sig(&sig(
        "apply",
        Some(Receiver::ByRef { mutable: true }),
        vec![param("env", env_ref(true))],
        Some(generic1("Result", named("String"))),
    ))
    .unwrap();
    assert!(matches!(
        mutable_receiver.as_trait_method(),
        Err(ClassificationError::TraitMethodMutableReceiver)
    ));
    let no_env = JavaMethod::from_sig(&sig(
        "apply",
        Some(Receiver::ByRef { mutable: false }),
        vec![],
        Some(generic1("Result", named("String"))),
    ))
    .unwrap();
    assert!(matches!(
        no_env.as_trait_method(),
        Err(ClassificationError::TraitMethodNeedsEnv)
    ));
}
