use jni_bindgen::java_class::JavaClass;
use jni_bindgen::java_interface::JavaInterface;
use jni_bindgen::java_method::JavaMethod;
use jni_bindgen::quotes;
use jni_bindgen::signature::{BindgenAttrs, FnSig, Param, Receiver};
use jni_bindgen::traits::AsDeclaration;
use jni_bindgen::type_expr::TypeExpr;

fn named(name: &str) -> TypeExpr {
    TypeExpr::Named {
        name: name.to_string(),
        first_arg: None,
        last_arg: None,
        text: name.to_string(),
    }
}

fn generic1(name: &str, arg: TypeExpr) -> TypeExpr {
    let inner_text = match &arg {
        TypeExpr::Named { text, .. } => text.clone(),
        _ => "?".to_string(),
    };
    let text = format!("{} < {} >", name, inner_text);
    let second = match &arg {
        TypeExpr::Named { name, first_arg: None, last_arg: None, text } => Some(Box::new(
            TypeExpr::Named {
                name: name.clone(),
                first_arg: None,
                last_arg: None,
                text: text.clone(),
            },
        )),
        _ => None,
    };
    TypeExpr::Named { name: name.to_string(), first_arg: Some(Box::new(arg)), last_arg: second, text }
}

fn param(name: &str, ty: TypeExpr) -> Param {
    Param { name: name.to_string(), ty, class_name_attr: None }
}

fn plain_sig(ident: &str, receiver: Option<Receiver>, params: Vec<Param>, output: Option<TypeExpr>) -> FnSig {
    FnSig {
        ident: ident.to_string(),
        receiver,
        params,
        output,
        doc_lines: vec![],
        rename: None,
        constructor: false,
        has_jni: true,
    }
}

fn attrs(namespace: &str) -> BindgenAttrs {
    BindgenAttrs {
        namespace: Some(namespace.to_string()),
        rename: None,
        constructor: false,
        load_lib: None,
        class_name: None,
    }
}

fn count(haystack: &str, needle: &str) -> usize {
    haystack.matches(needle).count()
}

fn scenario_class() -> JavaClass {
    // one constructor taking a Text parameter, one instance method returning Text
    let mut ctor = plain_sig("new", None, vec![param("value", named("String"))], Some(named("Self")));
    ctor.constructor = true;
    let method = plain_sig(
        "get_value",
        Some(Receiver::ByRef { mutable: false }),
        vec![],
        Some(named("String")),
    );
    JavaClass::from_items(
        "MyClass".to_string(),
        vec![],
        &vec![ctor, method],
        &attrs("com.example"),
    )
    .unwrap()
}

#[test]
fn scenario_one_ctor_one_method_counts() {
    let class = scenario_class();
    let bridges = class.as_jni_methods(&attrs("com.example")).unwrap();
    assert_eq!(count(&bridges, "pub extern \"system\" fn "), 4);
    assert_eq!(count(&bridges, "_drop<'local>"), 1);
    assert_eq!(count(&bridges, "_getTypeHash<'local>"), 1);
    let decl = class.as_declaration(true);
    // one public constructor on the outer class, one private on the inner one
    assert_eq!(count(&decl, "public MyClass(String value)"), 1);
    assert_eq!(count(&decl, "private MyClassNative(String value, Object referent)"), 1);
    // the method once as a public definition, once as a native declaration
    assert_eq!(count(&decl, "public String getValue()"), 1);
    assert_eq!(count(&decl, "private native String getValue()"), 1);
}

#[test]
fn bridge_names_follow_the_scheme_and_are_reproducible() {
    assert_eq!(
        quotes::base_name("com_example", "MyClass"),
        "Java_com_example_MyClass_00024MyClassNative"
    );
    let class = scenario_class();
    let first = class.as_jni_methods(&attrs("com.example")).unwrap();
    let second = class.as_jni_methods(&attrs("com.example")).unwrap();
    assert_eq!(first, second);
    assert!(first.contains("pub extern \"system\" fn Java_com_example_MyClass_00024MyClassNative_getValue<'local>"));
    assert!(first.contains("pub extern \"system\" fn Java_com_example_MyClass_00024MyClassNative_new<'local>"));
}

#[test]
fn instance_bridges_reject_a_zero_handle_before_calling() {
    let method = plain_sig(
        "count_items",
        Some(Receiver::ByRef { mutable: false }),
        vec![],
        Some(named("i32")),
    );
    let m = JavaMethod::from_sig(&method).unwrap();
    let bridge = m.as_jni_method("Java_com_example_Thing_00024ThingNative", "Thing").unwrap();
    let check = bridge.find("if ptr == 0").expect("zero-handle check missing");
    let call = bridge.find("this.count_items(").expect("underlying call missing");
    assert!(check < call, "the handle check must come before the call");
    assert!(bridge.contains("NullPointer"));
    assert!(bridge.contains("return 0;"));
}

#[test]
fn failing_fallible_static_method_raises_and_returns_zero() {
    let method = plain_sig("parse_num", None, vec![], Some(generic1("Result", named("i32"))));
    let m = JavaMethod::from_sig(&method).unwrap();
    let bridge = m.as_jni_method("Java_com_example_Util_00024UtilNative", "Util").unwrap();
    assert!(bridge.contains(
        "or_class(jni_bindgen::errors::ErrorClass::NativeExecutionException)"
    ));
    assert!(bridge.contains("return 0;"));
    assert!(bridge.ends_with("0 } }\n}"));
}

#[test]
fn optional_text_arguments_go_through_the_null_aware_decoder() {
    let method = plain_sig(
        "greet",
        Some(Receiver::ByRef { mutable: false }),
        vec![param("who", generic1("Option", named("String")))],
        None,
    );
    let m = JavaMethod::from_sig(&method).unwrap();
    let bridge = m.as_jni_method("Java_com_example_Thing_00024ThingNative", "Thing").unwrap();
    assert!(bridge.contains(
        "jni_bindgen::conversion::option_convert::string_from_jni(&mut env, j_arg_0)"
    ));
}

#[test]
fn a_class_without_constructors_raises_on_construction_and_has_no_destructor() {
    let method = plain_sig("help_text", None, vec![], Some(named("String")));
    let class = JavaClass::from_items(
        "Helpers".to_string(),
        vec![],
        &vec![method],
        &attrs("com.example"),
    )
    .unwrap();
    let bridges = class.as_jni_methods(&attrs("com.example")).unwrap();
    assert_eq!(count(&bridges, "_drop<'local>"), 0);
    assert_eq!(count(&bridges, "pub extern \"system\" fn "), 2);
    let decl = class.as_declaration(true);
    assert!(decl.contains("Helpers cannot be instantiated"));
    assert!(decl.contains("throw new UnsupportedOperationException"));
    assert!(!decl.contains("extends NativeClass"));
}

#[test]
fn argument_names_are_camel_cased_in_java_signatures() {
    let method = plain_sig(
        "set_first_name",
        Some(Receiver::ByRef { mutable: false }),
        vec![param("first_name", named("String")), param("retry_count", named("i32"))],
        None,
    );
    let m = JavaMethod::from_sig(&method).unwrap();
    assert_eq!(m.get_args(), "String firstName, int retryCount");
    let decl = m.as_declaration("Thing", true);
    assert!(decl.contains("public void setFirstName(String firstName, int retryCount)"));
}

#[test]
fn renames_override_the_host_visible_name_only() {
    let mut sig = plain_sig(
        "internal_name",
        Some(Receiver::ByRef { mutable: false }),
        vec![],
        None,
    );
    sig.rename = Some("niceName".to_string());
    let m = JavaMethod::from_sig(&sig).unwrap();
    assert_eq!(m.name, "niceName");
    assert_eq!(m.original_name, "internal_name");
    let bridge = m.as_jni_method("Java_ns_T_00024TNative", "T").unwrap();
    assert!(bridge.contains("fn Java_ns_T_00024TNative_niceName<'local>"));
    assert!(bridge.contains("this.internal_name()"));
}

#[test]
fn trait_methods_are_validated_and_forwarded_reflectively() {
    let env_param = Param {
        name: "env".to_string(),
        ty: TypeExpr::Ref {
            mutable: true,
            inner: Box::new(named("JNIEnv")),
            text: "& mut JNIEnv".to_string(),
        },
        class_name_attr: None,
    };
    let good = plain_sig(
        "apply",
        Some(Receiver::ByRef { mutable: false }),
        vec![env_param, param("val", named("String"))],
        Some(generic1("Result", named("String"))),
    );
    let m = JavaMethod::from_sig(&good).unwrap();
    let body = m.as_trait_method().unwrap();
    assert!(body.starts_with("fn apply(&self, env: &mut jni::JNIEnv, arg_1: String, )"));
    assert!(body.contains("env.call_method(&self.obj, \"apply\", \"(Ljava/lang/String;)Ljava/lang/String;\""));
    assert!(body.contains("j_arg_1"));

    let no_env = plain_sig(
        "apply",
        Some(Receiver::ByRef { mutable: false }),
        vec![param("val", named("String"))],
        Some(generic1("Result", named("String"))),
    );
    assert!(JavaMethod::from_sig(&no_env).unwrap().as_trait_method().is_err());

    let not_fallible = plain_sig(
        "apply",
        Some(Receiver::ByRef { mutable: false }),
        vec![],
        Some(named("String")),
    );
    assert!(JavaMethod::from_sig(&not_fallible).unwrap().as_trait_method().is_err());

    let static_method = plain_sig("apply", None, vec![], Some(generic1("Result", named("String"))));
    assert!(JavaMethod::from_sig(&static_method).unwrap().as_trait_method().is_err());
}

#[test]
fn interfaces_emit_a_proxy_and_a_java_interface() {
    let env_param = Param {
        name: "env".to_string(),
        ty: TypeExpr::Ref {
            mutable: true,
            inner: Box::new(named("JNIEnv")),
            text: "& mut JNIEnv".to_string(),
        },
        class_name_attr: None,
    };
    let sig = plain_sig(
        "on_event",
        Some(Receiver::ByRef { mutable: false }),
        vec![env_param, param("payload", named("String"))],
        Some(generic1("Result", named("String"))),
    );
    let interface = JavaInterface::from_items(
        "EventListener".to_string(),
        vec!["A listener invoked from native code.".to_string()],
        &vec![sig],
        &attrs("com.example"),
    )
    .unwrap();
    let native = interface.as_jni_methods().unwrap();
    assert!(native.contains("pub struct EventListenerImpl<'local>"));
    assert!(native.contains("impl EventListener for EventListenerImpl<'_>"));
    assert!(native.contains("for Box<dyn EventListener + 'local>"));
    let java = interface.as_java_declaration();
    assert!(java.contains("package com.example;"));
    assert!(java.contains("public interface EventListener {"));
    assert!(java.contains("String onEvent(String payload) throws NativeExecutionException;"));
    assert!(java.contains("A listener invoked from native code."));
}

#[test]
fn receivers_must_be_references() {
    let by_value = plain_sig("consume", Some(Receiver::ByValue), vec![], None);
    assert!(JavaMethod::from_sig(&by_value).is_err());
}

#[test]
fn a_missing_namespace_is_rejected() {
    let method = plain_sig("noop", None, vec![], None);
    let bag = BindgenAttrs {
        namespace: None,
        rename: None,
        constructor: false,
        load_lib: None,
        class_name: None,
    };
    assert!(JavaClass::from_items("X".to_string(), vec![], &vec![method], &bag).is_err());
}

#[test]
fn load_lib_emits_the_static_initializer() {
    let mut ctor = plain_sig("new", None, vec![], Some(named("Self")));
    ctor.constructor = true;
    let mut bag = attrs("com.example");
    bag.load_lib = Some("example_lib".to_string());
    let class = JavaClass::from_items("Loaded".to_string(), vec![], &vec![ctor], &bag).unwrap();
    let decl = class.as_declaration(true);
    assert!(decl.contains("System.loadLibrary(\"example_lib\");"));
    assert!(decl.contains("extends NativeClass"));
    assert!(decl.contains("protected void destruct()"));
}

#[test]
fn optional_float_arguments_unbox_inline() {
    let method = plain_sig(
        "set_ratio",
        Some(Receiver::ByRef { mutable: false }),
        vec![param("ratio", generic1("Option", named("f32")))],
        None,
    );
    let m = JavaMethod::from_sig(&method).unwrap();
    let bridge = m.as_jni_method("Java_com_example_Thing_00024ThingNative", "Thing").unwrap();
    assert!(bridge.contains(
        "if j_arg_0.is_null() { Ok(None) } else { env.call_method(&j_arg_0, \"floatValue\", \"()F\", &[]).and_then(|v| v.f()).map(Some) }"
    ));
    assert!(!bridge.contains("option_convert"));
}

#[test]
fn optional_double_returns_box_inline_with_a_null_sentinel() {
    let method = plain_sig("ratio", None, vec![], Some(generic1("Option", named("f64"))));
    let m = JavaMethod::from_sig(&method).unwrap();
    let bridge = m.as_jni_method("Java_com_example_Util_00024UtilNative", "Util").unwrap();
    assert!(bridge.contains(
        "env.call_static_method(\"java/lang/Double\", \"valueOf\", \"(D)Ljava/lang/Double;\", &[v.into()]).and_then(|r| r.l()).map(|o| o.into_raw())"
    ));
    assert!(bridge.contains("else { Ok(std::ptr::null_mut()) }"));
}

#[test]
fn optional_text_returns_encode_and_hand_back_raw_handles() {
    let method = plain_sig("nickname", None, vec![], Some(generic1("Option", named("String"))));
    let m = JavaMethod::from_sig(&method).unwrap();
    let bridge = m.as_jni_method("Java_com_example_Util_00024UtilNative", "Util").unwrap();
    assert!(bridge.contains(
        "jni_bindgen::conversion::option_convert::string_into_jni(&mut env, res).map(|o| o.into_raw())"
    ));
}

#[test]
fn list_returns_hand_back_raw_handles() {
    let method = plain_sig("names", None, vec![], Some(generic1("Vec", named("String"))));
    let m = JavaMethod::from_sig(&method).unwrap();
    let bridge = m.as_jni_method("Java_com_example_Util_00024UtilNative", "Util").unwrap();
    assert!(bridge.contains("-> jni::sys::jobject"));
    assert!(bridge.contains(">(&mut env, res).map(|o| o.into_raw())"));
    assert!(bridge.contains("jni_bindgen::conversion::object_convert::from_vec::<"));
}

#[test]
fn trait_methods_pass_collections_without_raw_handles() {
    let env_param = Param {
        name: "env".to_string(),
        ty: TypeExpr::Ref {
            mutable: true,
            inner: Box::new(named("JNIEnv")),
            text: "& mut JNIEnv".to_string(),
        },
        class_name_attr: None,
    };
    let sig = plain_sig(
        "push_all",
        Some(Receiver::ByRef { mutable: false }),
        vec![env_param, param("items", generic1("Vec", named("String")))],
        Some(generic1("Result", named("String"))),
    );
    let m = JavaMethod::from_sig(&sig).unwrap();
    let body = m.as_trait_method().unwrap();
    assert!(body.contains("jni_bindgen::conversion::object_convert::from_vec::<"));
    assert!(body.contains(">(env, arg_1)?"));
    assert!(!body.contains("unsafe"));
    assert!(!body.contains("from_raw"));
}

#[test]
fn declaration_rendering_is_guarded_by_the_return_check() {
    let class = scenario_class();
    assert!(class.declarations_wf());
    let plain = JavaMethod::from_sig(&plain_sig("noop", None, vec![], None)).unwrap();
    assert!(plain.has_declarable_ret());
    let bad = JavaMethod {
        name: "bad".to_string(),
        original_name: "bad".to_string(),
        args: vec![],
        return_type: Some(jni_bindgen::java_type::JavaType::Env { mutable: false }),
        static_method: true,
        mut_self: false,
        doc_lines: vec![],
    };
    assert!(!bad.has_declarable_ret());
}

#[test]
fn every_class_declares_the_type_hash_forwarder() {
    let class = scenario_class();
    let decl = class.as_declaration(true);
    assert!(decl.contains("public static long getTypeHash() {"));
    assert!(decl.contains("return MyClassNative.getTypeHash();"));
    let method = plain_sig("help_text", None, vec![], Some(named("String")));
    let bare = JavaClass::from_items(
        "Helpers".to_string(),
        vec![],
        &vec![method],
        &attrs("com.example"),
    )
    .unwrap();
    let bare_decl = bare.as_declaration(true);
    assert!(bare_decl.contains("private Helpers() {"));
    assert!(bare_decl.contains(
        "throw new UnsupportedOperationException(\"Helpers cannot be instantiated\");"
    ));
}
