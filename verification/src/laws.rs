//! The properties that hold of classification and of code synthesis, stated
//! and proved once for all inputs.
use vstd::prelude::*;

verus! {

use crate::errors::ClassificationErrorV;
use crate::java_type::{JavaTypeV, is_primitive, wf_type, spec_java_decl, spec_jni_descriptor};
use crate::type_expr::{TypeExprV, spec_classify};

/// Law: whatever classification accepts is well-formed — optionals wrap one
/// value of the allow-list and never nest, fallibles never wrap themselves,
/// containers hold values.
pub proof fn lemma_classify_wf(e: TypeExprV, attr: Option<Seq<char>>)
    ensures
        spec_classify(e, attr) matches Ok(t) ==> wf_type(t),
    decreases e,
{
    match e {
        TypeExprV::Named { name, first_arg, last_arg, text } => {
            if first_arg is Some {
                lemma_classify_wf(*first_arg->0, None);
            }
            if last_arg is Some {
                lemma_classify_wf(*last_arg->0, None);
            }
        },
        _ => {},
    }
}

/// Law: a fixed-width primitive type name classifies to its matching
/// category, whatever the attribute context.
pub proof fn lemma_primitive_classification(e: TypeExprV, attr: Option<Seq<char>>)
    requires
        e matches TypeExprV::Named { .. },
    ensures
        e->name == "i32"@ ==> spec_classify(e, attr) == Ok::<_, ClassificationErrorV>(
            JavaTypeV::Integer,
        ),
        e->name == "i64"@ ==> spec_classify(e, attr) == Ok::<_, ClassificationErrorV>(
            JavaTypeV::Long,
        ),
        e->name == "bool"@ ==> spec_classify(e, attr) == Ok::<_, ClassificationErrorV>(
            JavaTypeV::Boolean,
        ),
        e->name == "f32"@ ==> spec_classify(e, attr) == Ok::<_, ClassificationErrorV>(
            JavaTypeV::Float,
        ),
        e->name == "f64"@ ==> spec_classify(e, attr) == Ok::<_, ClassificationErrorV>(
            JavaTypeV::Double,
        ),
        e->name == "i16"@ ==> spec_classify(e, attr) == Ok::<_, ClassificationErrorV>(
            JavaTypeV::Short,
        ),
        e->name == "u16"@ ==> spec_classify(e, attr) == Ok::<_, ClassificationErrorV>(
            JavaTypeV::Char,
        ),
        e->name == "i8"@ ==> spec_classify(e, attr) == Ok::<_, ClassificationErrorV>(
            JavaTypeV::Byte,
        ),
{
    reveal_strlit("String");
    reveal_strlit("Self");
    reveal_strlit("i32");
    reveal_strlit("i64");
    reveal_strlit("bool");
    reveal_strlit("f32");
    reveal_strlit("f64");
    reveal_strlit("i16");
    reveal_strlit("u16");
    reveal_strlit("i8");
    assert(("i64"@)[1] == '6' && ("i32"@)[1] == '3');
    assert(("bool"@)[0] == 'b' && ("Self"@)[0] == 'S');
    assert(("f32"@)[0] == 'f' && ("i32"@)[0] == 'i' && ("i64"@)[0] == 'i');
    assert(("f64"@)[1] == '6' && ("f32"@)[1] == '3');
    assert(("i16"@)[1] == '1' && ("u16"@)[0] == 'u');
    assert(("i8"@).len() == 2 && ("i32"@).len() == 3 && ("i64"@).len() == 3 && ("bool"@).len()
        == 4 && ("f32"@).len() == 3 && ("f64"@).len() == 3 && ("i16"@).len() == 3 && (
    "u16"@).len() == 3 && ("String"@).len() == 6 && ("Self"@).len() == 4);
}

/// Law: among the fixed-width primitives, the JNI signature encoding and the
/// Java declaration each pin the category down — two primitives that share
/// an encoding, or share a declaration, are the same category. Encoding,
/// declaration and category therefore determine one another.
pub proof fn lemma_primitive_encoding_consistent(t1: JavaTypeV, t2: JavaTypeV)
    requires
        is_primitive(t1),
        is_primitive(t2),
    ensures
        spec_jni_descriptor(t1) == spec_jni_descriptor(t2) ==> t1 == t2,
        spec_java_decl(t1) == spec_java_decl(t2) ==> t1 == t2,
{
    reveal_strlit("I");
    reveal_strlit("J");
    reveal_strlit("Z");
    reveal_strlit("F");
    reveal_strlit("D");
    reveal_strlit("S");
    reveal_strlit("C");
    reveal_strlit("B");
    reveal_strlit("int");
    reveal_strlit("long");
    reveal_strlit("boolean");
    reveal_strlit("float");
    reveal_strlit("double");
    reveal_strlit("short");
    reveal_strlit("char");
    reveal_strlit("byte");
    assert(("I"@)[0] == 'I' && ("J"@)[0] == 'J' && ("Z"@)[0] == 'Z' && ("F"@)[0] == 'F' && (
    "D"@)[0] == 'D' && ("S"@)[0] == 'S' && ("C"@)[0] == 'C' && ("B"@)[0] == 'B');
    assert(("int"@)[0] == 'i' && ("long"@)[0] == 'l' && ("boolean"@)[0] == 'b' && ("float"@)[0]
        == 'f' && ("double"@)[0] == 'd' && ("short"@)[0] == 's' && ("char"@)[0] == 'c' && (
    "byte"@)[0] == 'b');
    assert(("boolean"@)[1] == 'o' && ("byte"@)[1] == 'y');
    assert(("int"@).len() == 3 && ("long"@).len() == 4 && ("boolean"@).len() == 7 && (
    "float"@).len() == 5 && ("double"@).len() == 6 && ("short"@).len() == 5 && ("char"@).len()
        == 4 && ("byte"@).len() == 4);
    if spec_jni_descriptor(t1) == spec_jni_descriptor(t2) {
        let d1 = spec_jni_descriptor(t1)->Ok_0;
        let d2 = spec_jni_descriptor(t2)->Ok_0;
        assert(d1[0] == d2[0]);
    }
    if spec_java_decl(t1) == spec_java_decl(t2) {
        let d1 = spec_java_decl(t1)->0;
        let d2 = spec_java_decl(t2)->0;
        assert(d1.len() == d2.len());
        assert(d1[0] == d2[0]);
        if d1.len() > 1 {
            assert(d1[1] == d2[1]);
        }
    }
}

/// Law: an optional nested directly inside an optional never classifies,
/// whatever the wrapped type and the attribute context.
pub proof fn lemma_optional_nesting_rejected(e: TypeExprV, attr: Option<Seq<char>>)
    requires
        e matches TypeExprV::Named { name, first_arg: Some(inner), .. } && name == "Option"@ && (
        *inner matches TypeExprV::Named { name: n2, .. } && n2 == "Option"@),
    ensures
        spec_classify(e, attr) is Err,
{
    reveal_strlit("String");
    reveal_strlit("Self");
    reveal_strlit("i32");
    reveal_strlit("i64");
    reveal_strlit("bool");
    reveal_strlit("f32");
    reveal_strlit("f64");
    reveal_strlit("i16");
    reveal_strlit("u16");
    reveal_strlit("i8");
    reveal_strlit("JObject");
    reveal_strlit("Result");
    reveal_strlit("Option");
    reveal_strlit("Vec");
    reveal_strlit("HashMap");
    reveal_strlit("Box");
    assert(("Option"@)[0] == 'O' && ("String"@)[0] == 'S' && ("Result"@)[0] == 'R');
    let inner = e->Named_first_arg->0;
    match spec_classify(*inner, None) {
        Ok(i) => {
            assert(i is Optional);
        },
        Err(_) => {},
    }
}

/// Law: a fallible wrapped directly in a fallible never classifies,
/// whatever the wrapped type and the attribute context.
pub proof fn lemma_fallible_nesting_rejected(e: TypeExprV, attr: Option<Seq<char>>)
    requires
        e matches TypeExprV::Named { name, first_arg: Some(inner), .. } && name == "Result"@ && (
        *inner matches TypeExprV::Named { name: n2, .. } && n2 == "Result"@),
    ensures
        spec_classify(e, attr) is Err,
{
    reveal_strlit("String");
    reveal_strlit("Self");
    reveal_strlit("i32");
    reveal_strlit("i64");
    reveal_strlit("bool");
    reveal_strlit("f32");
    reveal_strlit("f64");
    reveal_strlit("i16");
    reveal_strlit("u16");
    reveal_strlit("i8");
    reveal_strlit("JObject");
    reveal_strlit("Result");
    reveal_strlit("Option");
    reveal_strlit("Vec");
    reveal_strlit("HashMap");
    reveal_strlit("Box");
    assert(("Option"@)[0] == 'O' && ("String"@)[0] == 'S' && ("Result"@)[0] == 'R');
    let inner = e->Named_first_arg->0;
    match spec_classify(*inner, None) {
        Ok(i) => {
            assert(i is Fallible);
        },
        Err(_) => {},
    }
}

/// Law: the designated error-return sentinel of every category follows the
/// fixed table — null for text, objects, lists, maps and optionals; `0` for
/// the signed integers and for handles; false for booleans; `0.0` for the
/// floating-point categories; no value for void.
pub proof fn lemma_sentinel_table(t: JavaTypeV)
    ensures
        (t is Text || t is Optional || t is Object || t is ListOf || t is MapOf)
            ==> crate::java_type::spec_error_return_val(t) == Ok::<_, ClassificationErrorV>(
            "std::ptr::null_mut()"@,
        ),
        (t is This || t is Integer || t is Long || t is Short || t is Char || t is Byte)
            ==> crate::java_type::spec_error_return_val(t) == Ok::<_, ClassificationErrorV>("0"@),
        t is Boolean ==> crate::java_type::spec_error_return_val(t) == Ok::<
            _,
            ClassificationErrorV,
        >("jni::sys::JNI_FALSE"@),
        (t is Float || t is Double) ==> crate::java_type::spec_error_return_val(t) == Ok::<
            _,
            ClassificationErrorV,
        >("0.0"@),
        t is Void ==> crate::java_type::spec_error_return_val(t) == Ok::<_, ClassificationErrorV>(
            Seq::<char>::empty(),
        ),
{
}

/// The external name of one bridge function, as the host runtime's dynamic
/// linker must resolve it: the fixed prefix, the namespace with dots escaped
/// to underscores, the class name, the encoded `$` separator with the inner
/// native class name, and the camel-cased method name.
pub open spec fn spec_bridge_fn_name(
    namespace: Seq<char>,
    class_name: Seq<char>,
    method_name: Seq<char>,
) -> Seq<char> {
    crate::quotes::spec_base_name(
        crate::text::replace_char_seq(namespace, '.', '_'),
        class_name,
    ) + "_"@ + crate::casing::camel_of(method_name)
}

/// Law: every generated bridge function is declared under exactly the
/// documented external name for its namespace, class and method name. The
/// name is a function of those three inputs alone, so repeated generation
/// runs over identical inputs declare byte-identical names.
#[verifier::rlimit(100)]
#[verifier::spinoff_prover]
pub proof fn lemma_bridge_name_scheme(
    m: crate::java_method::JavaMethodV,
    namespace: Seq<char>,
    class_name: Seq<char>,
)
    requires
        crate::java_method::spec_as_jni_method(
            m,
            crate::quotes::spec_base_name(
                crate::text::replace_char_seq(namespace, '.', '_'),
                class_name,
            ),
            class_name,
        ) is Ok,
    ensures
        ("#[no_mangle]\npub extern \"system\" fn "@ + spec_bridge_fn_name(
            namespace,
            class_name,
            m.name,
        )).is_prefix_of(
            crate::java_method::spec_as_jni_method(
                m,
                crate::quotes::spec_base_name(
                    crate::text::replace_char_seq(namespace, '.', '_'),
                    class_name,
                ),
                class_name,
            )->Ok_0,
        ),
{
    let base = crate::quotes::spec_base_name(
        crate::text::replace_char_seq(namespace, '.', '_'),
        class_name,
    );
    let text = crate::java_method::spec_as_jni_method(m, base, class_name)->Ok_0;
    let head = "#[no_mangle]\npub extern \"system\" fn "@ + spec_bridge_fn_name(
        namespace,
        class_name,
        m.name,
    );
    assert(head =~= "#[no_mangle]\npub extern \"system\" fn "@ + base + "_"@
        + crate::casing::camel_of(m.name));
    assert(head.is_prefix_of(text)) by {
        assert(head =~= text.subrange(0, head.len() as int));
    }
}

/// Law: an instance method's bridge resolves the receiver through the
/// handle-checking prelude — the emitted text carries, before the underlying
/// call, the fragment that reads the `ptr` field, raises a null-pointer
/// error on a zero handle and returns the method's designated sentinel
/// without calling into the native type.
#[verifier::rlimit(100)]
#[verifier::spinoff_prover]
pub proof fn lemma_instance_bridge_checks_handle(
    m: crate::java_method::JavaMethodV,
    base_name: Seq<char>,
    struct_name: Seq<char>,
)
    requires
        !m.static_method,
        crate::java_method::spec_as_jni_method(m, base_name, struct_name) is Ok,
    ensures
        ({
            let text = crate::java_method::spec_as_jni_method(m, base_name, struct_name)->Ok_0;
            let sentinel = match m.return_type {
                Some(t) => crate::java_type::spec_error_return_val(t)->Ok_0,
                None => "()"@,
            };
            crate::text::contains_seq(
                text,
                crate::quotes::spec_this(struct_name, sentinel, m.mut_self),
            )
        }),
{
    let text = crate::java_method::spec_as_jni_method(m, base_name, struct_name)->Ok_0;
    let sentinel = match m.return_type {
        Some(t) => crate::java_type::spec_error_return_val(t)->Ok_0,
        None => "()"@,
    };
    let this_text = crate::quotes::spec_this(struct_name, sentinel, m.mut_self);
    let retv = crate::java_method::spec_ret_or_void_v(m.return_type);
    let ret_text = match m.return_type {
        Some(t) => " -> "@ + crate::java_type::spec_jni_return_type(t)->Ok_0,
        None => Seq::<char>::empty(),
    };
    let jp = crate::java_method::spec_j_args_pieces(m.args)->Ok_0;
    let head = "#[no_mangle]\npub extern \"system\" fn "@ + base_name + "_"@
        + crate::casing::camel_of(m.name) + "<'local>(mut env: jni::JNIEnv<'local>, "@
        + "object: jni::objects::JObject<'local>"@ + ", "@ + crate::text::join_seq(jp, ", "@)
        + ")"@ + ret_text + " {\nuse jni_bindgen::objects::traits::IntoJNIResult;\n"@;
    let k = head.len() as int;
    assert(text.subrange(k, k + this_text.len()) =~= this_text);
    assert(crate::text::contains_seq(text, this_text));
}

/// Law: a class without constructors emits no destructor bridge — its bridge
/// output is exactly its method bridges and the type-hash bridge — and its
/// Java declaration is the formatted form of a template that carries the
/// constructor which unconditionally raises.
#[verifier::rlimit(100)]
#[verifier::spinoff_prover]
pub proof fn lemma_constructor_absence(c: crate::java_class::JavaClassV, ns: Seq<char>)
    requires
        c.constructors.len() == 0,
    ensures
        crate::java_class::spec_class_jni_methods(c, Some(ns)) matches Ok(t) ==> t
            == crate::text::join_seq(
            crate::java_class::spec_bridges(
                c.methods,
                crate::quotes::spec_base_name(
                    crate::text::replace_char_seq(ns, '.', '_'),
                    c.name,
                ),
                c.name,
            )->Ok_0,
            "\n"@,
        ) + "\n"@ + "\n"@ + "\n"@ + crate::quotes::spec_get_type_hash(
            crate::quotes::spec_base_name(crate::text::replace_char_seq(ns, '.', '_'), c.name),
            c.name,
        ),
        exists|t: Seq<char>|
            crate::java_class::spec_class_declaration(c) == crate::code::spec_format_code(t)
                && #[trigger] crate::text::contains_seq(
                t,
                crate::code::spec_disable_ctor(c.name),
            ),
{
    let base = crate::quotes::spec_base_name(crate::text::replace_char_seq(ns, '.', '_'), c.name);
    if crate::java_class::spec_class_jni_methods(c, Some(ns)) is Ok {
        assert(crate::java_class::spec_bridges(c.constructors, base, c.name)
            == Ok::<Seq<Seq<char>>, ClassificationErrorV>(Seq::empty()));
        assert(crate::text::join_seq(Seq::<Seq<char>>::empty(), "\n"@) == Seq::<char>::empty());
    }
    // the declaration template with the raising constructor
    let inner_list = c.methods + Seq::<crate::java_method::JavaMethodV>::empty() + seq![
        crate::java_method::spec_hash_method_v(),
    ] + c.constructors;
    assert(inner_list =~= c.methods + (if c.constructors.len() > 0 {
        seq![crate::java_method::spec_drop_method_v()]
    } else {
        Seq::empty()
    }) + seq![crate::java_method::spec_hash_method_v()] + c.constructors);
    let inner_methods = crate::text::join_seq(
        crate::java_class::spec_decl_pieces(inner_list, c.name, false),
        "\n\t"@,
    );
    let inner_ctors = crate::text::join_seq(
        crate::java_class::spec_ctor_pieces(c.constructors, c.name + "Native"@, true),
        "\n\t"@,
    );
    assert(crate::java_class::spec_ctor_pieces(c.constructors, c.name + "Native"@, true)
        =~= Seq::<Seq<char>>::empty());
    let inner = crate::code::spec_inner_class(c.name, inner_methods, inner_ctors, c.load_lib);
    let outer_methods = crate::text::join_seq(
        crate::java_class::spec_decl_pieces(c.methods, c.name, true),
        "\n"@,
    );
    let outer_ctors = crate::text::join_seq(
        crate::java_class::spec_ctor_pieces(c.constructors, c.name, false),
        "\n"@,
    );
    assert(outer_ctors.len() == 0);
    let comment = crate::java_method::spec_comment_or_empty(c.doc_lines);
    let imports = crate::java_class::spec_class_imports(c);
    let pre = "package "@ + c.namespace + ";\n\n        "@ + crate::code::spec_import_lines(
        imports,
    ) + "\n        \n        "@ + comment + "\n        public class "@ + c.name + " "@
        + Seq::<char>::empty() + "{\n    "@ + Seq::<char>::empty() + "\n    \n    "@;
    let post = "\n\n    "@ + outer_methods
        + "\n    \n    /**\n     * Get the type of the underlying native class\n     * in a hashed form. This is used to check if\n     * the native class is the same as the one\n     * that is expected.\n     *\n     * @return The type hash of this class\n     */\n    public static long getTypeHash() {\n        return "@
        + c.name + "Native.getTypeHash();\n    }\n\n    "@ + Seq::<char>::empty() + "\n\n    "@
        + inner + "\n}"@;
    let template = pre + crate::code::spec_disable_ctor(c.name) + post;
    assert(crate::java_class::spec_class_declaration(c) == crate::code::spec_format_code(
        template,
    )) by {
        assert(template =~= "package "@ + c.namespace + ";\n\n        "@
            + crate::code::spec_import_lines(imports) + "\n        \n        "@ + comment
            + "\n        public class "@ + c.name + " "@ + Seq::<char>::empty() + "{\n    "@
            + Seq::<char>::empty() + "\n    \n    "@ + crate::code::spec_disable_ctor(c.name)
            + "\n\n    "@ + outer_methods
            + "\n    \n    /**\n     * Get the type of the underlying native class\n     * in a hashed form. This is used to check if\n     * the native class is the same as the one\n     * that is expected.\n     *\n     * @return The type hash of this class\n     */\n    public static long getTypeHash() {\n        return "@
            + c.name + "Native.getTypeHash();\n    }\n\n    "@ + Seq::<char>::empty() + "\n\n    "@
            + inner + "\n}"@);
    }
    let k = pre.len() as int;
    assert(template.subrange(k, k + crate::code::spec_disable_ctor(c.name).len() as int)
        =~= crate::code::spec_disable_ctor(c.name));
    assert(crate::text::contains_seq(template, crate::code::spec_disable_ctor(c.name)));
}

/// The template the outer-class renderer formats, reconstructed so that the
/// rendered-file laws can speak about its lines.
spec fn class_template(c: crate::java_class::JavaClassV) -> Seq<char> {
    let inner_list = c.methods + (if c.constructors.len() > 0 {
        seq![crate::java_method::spec_drop_method_v()]
    } else {
        Seq::empty()
    }) + seq![crate::java_method::spec_hash_method_v()] + c.constructors;
    let inner_methods = crate::text::join_seq(
        crate::java_class::spec_decl_pieces(inner_list, c.name, false),
        "\n\t"@,
    );
    let inner_ctors = crate::text::join_seq(
        crate::java_class::spec_ctor_pieces(c.constructors, c.name + "Native"@, true),
        "\n\t"@,
    );
    let inner = crate::code::spec_inner_class(c.name, inner_methods, inner_ctors, c.load_lib);
    let outer_methods = crate::text::join_seq(
        crate::java_class::spec_decl_pieces(c.methods, c.name, true),
        "\n"@,
    );
    let outer_ctors = crate::text::join_seq(
        crate::java_class::spec_ctor_pieces(c.constructors, c.name, false),
        "\n"@,
    );
    let comment = crate::java_method::spec_comment_or_empty(c.doc_lines);
    let imports = crate::java_class::spec_class_imports(c);
    let has = outer_ctors.len() > 0;
    let imports2 = if has {
        crate::java_type::add_unique(
            crate::java_type::add_unique(imports, "com.github.markusjx.jnibindgen.NativeClass"@),
            "com.github.markusjx.jnibindgen.NativeClassImpl"@,
        )
    } else {
        imports
    };
    let inner_ty = if has {
        "private final "@ + c.name + "Native inner;"@
    } else {
        Seq::<char>::empty()
    };
    let implements = if has {
        " implements NativeClassImpl<"@ + c.name + "."@ + c.name + "Native>"@
    } else {
        Seq::<char>::empty()
    };
    let get_inner = if has {
        "\n    @Override\n    public "@ + c.name
            + "Native getInner() {\n        return inner;\n    }"@
    } else {
        Seq::<char>::empty()
    };
    let ctors = if has {
        outer_ctors
    } else {
        crate::code::spec_disable_ctor(c.name)
    };
    "package "@ + c.namespace + ";\n\n        "@ + crate::code::spec_import_lines(imports2)
        + "\n        \n        "@ + comment + "\n        public class "@ + c.name + " "@
        + implements + "{\n    "@ + inner_ty + "\n    \n    "@ + ctors + "\n\n    "@ + outer_methods
        + "\n    \n    /**\n     * Get the type of the underlying native class\n     * in a hashed form. This is used to check if\n     * the native class is the same as the one\n     * that is expected.\n     *\n     * @return The type hash of this class\n     */\n    public static long getTypeHash() {\n        return "@
        + c.name + "Native.getTypeHash();\n    }\n\n    "@ + get_inner + "\n\n    "@ + inner + "\n}"@
}

proof fn lemma_class_template(c: crate::java_class::JavaClassV)
    ensures
        crate::java_class::spec_class_declaration(c) == crate::code::spec_format_code(
            class_template(c),
        ),
{
}

/// Law: the rendered declaration file of every class carries the static
/// type-hash accessor that forwards to the inner native class — both its
/// header line and the forwarding statement survive the indentation pass
/// verbatim, whatever the class's methods and constructors.
#[verifier::rlimit(100)]
#[verifier::spinoff_prover]
pub proof fn lemma_type_hash_rendered(c: crate::java_class::JavaClassV)
    requires
        !c.name.contains('\n'),
    ensures
        crate::text::contains_seq(
            crate::java_class::spec_class_declaration(c),
            "public static long getTypeHash() {"@,
        ),
        crate::text::contains_seq(
            crate::java_class::spec_class_declaration(c),
            "return "@ + c.name + "Native.getTypeHash();"@,
        ),
{
    lemma_class_template(c);
    let t = class_template(c);
    let name = c.name;
    reveal_strlit(
        "\n    \n    /**\n     * Get the type of the underlying native class\n     * in a hashed form. This is used to check if\n     * the native class is the same as the one\n     * that is expected.\n     *\n     * @return The type hash of this class\n     */\n    public static long getTypeHash() {\n        return ",
    );
    reveal_strlit(
        "\n    \n    /**\n     * Get the type of the underlying native class\n     * in a hashed form. This is used to check if\n     * the native class is the same as the one\n     * that is expected.\n     *\n     * @return The type hash of this class\n     */",
    );
    reveal_strlit("    public static long getTypeHash() {");
    reveal_strlit("        return ");
    reveal_strlit("Native.getTypeHash();\n    }\n\n    ");
    reveal_strlit("Native.getTypeHash();");
    reveal_strlit("    }\n\n    ");
    reveal_strlit("public static long getTypeHash() {");
    reveal_strlit("return ");
    let g_pre =
        "\n    \n    /**\n     * Get the type of the underlying native class\n     * in a hashed form. This is used to check if\n     * the native class is the same as the one\n     * that is expected.\n     *\n     * @return The type hash of this class\n     */"@;
    let l_hdr = "    public static long getTypeHash() {"@;
    let lit_ret = "        return "@;
    assert(
        ("\n    \n    /**\n     * Get the type of the underlying native class\n     * in a hashed form. This is used to check if\n     * the native class is the same as the one\n     * that is expected.\n     *\n     * @return The type hash of this class\n     */\n    public static long getTypeHash() {\n        return "@)
            =~= g_pre + seq!['\n'] + l_hdr + seq!['\n'] + lit_ret);
    assert(("Native.getTypeHash();\n    }\n\n    "@) =~= "Native.getTypeHash();"@ + seq!['\n']
        + "    }\n\n    "@);
    let inner_list = c.methods + (if c.constructors.len() > 0 {
        seq![crate::java_method::spec_drop_method_v()]
    } else {
        Seq::empty()
    }) + seq![crate::java_method::spec_hash_method_v()] + c.constructors;
    let inner_methods = crate::text::join_seq(
        crate::java_class::spec_decl_pieces(inner_list, c.name, false),
        "\n\t"@,
    );
    let inner_ctors = crate::text::join_seq(
        crate::java_class::spec_ctor_pieces(c.constructors, c.name + "Native"@, true),
        "\n\t"@,
    );
    let inner = crate::code::spec_inner_class(c.name, inner_methods, inner_ctors, c.load_lib);
    let outer_methods = crate::text::join_seq(
        crate::java_class::spec_decl_pieces(c.methods, c.name, true),
        "\n"@,
    );
    let outer_ctors = crate::text::join_seq(
        crate::java_class::spec_ctor_pieces(c.constructors, c.name, false),
        "\n"@,
    );
    let comment = crate::java_method::spec_comment_or_empty(c.doc_lines);
    let imports = crate::java_class::spec_class_imports(c);
    let has = outer_ctors.len() > 0;
    let imports2 = if has {
        crate::java_type::add_unique(
            crate::java_type::add_unique(imports, "com.github.markusjx.jnibindgen.NativeClass"@),
            "com.github.markusjx.jnibindgen.NativeClassImpl"@,
        )
    } else {
        imports
    };
    let inner_ty = if has {
        "private final "@ + name + "Native inner;"@
    } else {
        Seq::<char>::empty()
    };
    let implements = if has {
        " implements NativeClassImpl<"@ + name + "."@ + name + "Native>"@
    } else {
        Seq::<char>::empty()
    };
    let get_inner = if has {
        "\n    @Override\n    public "@ + name
            + "Native getInner() {\n        return inner;\n    }"@
    } else {
        Seq::<char>::empty()
    };
    let ctors = if has {
        outer_ctors
    } else {
        crate::code::spec_disable_ctor(name)
    };
    let p = "package "@ + c.namespace + ";\n\n        "@ + crate::code::spec_import_lines(imports2)
        + "\n        \n        "@ + comment + "\n        public class "@ + name + " "@
        + implements + "{\n    "@ + inner_ty + "\n    \n    "@ + ctors + "\n\n    "@
        + outer_methods;
    let tail2 = get_inner + "\n\n    "@ + inner + "\n}"@;
    // the header line
    let a1 = p + g_pre;
    let b1 = lit_ret + name + "Native.getTypeHash();\n    }\n\n    "@ + tail2;
    assert(t =~= a1 + seq!['\n'] + l_hdr + seq!['\n'] + b1);
    assert(!l_hdr.contains('\n'));
    assert(forall|j: int| 0 <= j < 4 ==> crate::text::is_space(#[trigger] l_hdr[j]));
    assert(!crate::text::is_space(l_hdr[4]));
    assert(!crate::text::is_space(l_hdr.last()));
    crate::text::lemma_trim_at(l_hdr, 4);
    assert(crate::text::trim_seq(l_hdr) =~= "public static long getTypeHash() {"@);
    crate::code::lemma_format_keeps_line(t, a1, l_hdr, b1);
    // the forwarding statement
    let l_ret = lit_ret + name + "Native.getTypeHash();"@;
    let a2 = a1 + seq!['\n'] + l_hdr;
    let b2 = "    }\n\n    "@ + tail2;
    assert(t =~= a2 + seq!['\n'] + l_ret + seq!['\n'] + b2);
    assert(!lit_ret.contains('\n'));
    assert(!("Native.getTypeHash();"@).contains('\n'));
    crate::text::lemma_no_newline_concat(lit_ret, name, "Native.getTypeHash();"@);
    assert(forall|j: int| 0 <= j < 8 ==> crate::text::is_space(#[trigger] l_ret[j])) by {
        assert(forall|j: int| 0 <= j < 8 ==> l_ret[j] == lit_ret[j]);
    }
    assert(l_ret[8] == lit_ret[8]);
    assert(!crate::text::is_space(l_ret[8]));
    assert(l_ret.last() == ("Native.getTypeHash();"@).last());
    assert(!crate::text::is_space(l_ret.last()));
    crate::text::lemma_trim_at(l_ret, 8);
    assert(crate::text::trim_seq(l_ret) =~= "return "@ + name + "Native.getTypeHash();"@);
    crate::code::lemma_format_keeps_line(t, a2, l_ret, b2);
}

/// Law: the rendered declaration file of a class without constructors
/// carries a private constructor that unconditionally raises — both its
/// header line and the raising statement survive the indentation pass
/// verbatim — so the host cannot instantiate the class.
#[verifier::rlimit(100)]
#[verifier::spinoff_prover]
pub proof fn lemma_constructor_absence_rendered(c: crate::java_class::JavaClassV)
    requires
        !c.name.contains('\n'),
        c.constructors.len() == 0,
    ensures
        crate::text::contains_seq(
            crate::java_class::spec_class_declaration(c),
            "private "@ + c.name + "() {"@,
        ),
        crate::text::contains_seq(
            crate::java_class::spec_class_declaration(c),
            "throw new UnsupportedOperationException(\""@ + c.name
                + " cannot be instantiated\");"@,
        ),
{
    lemma_class_template(c);
    let t = class_template(c);
    let name = c.name;
    reveal_strlit("\n    /**\n     * Disable instantiation of ");
    reveal_strlit("\n     */\n    private ");
    reveal_strlit("\n     */");
    reveal_strlit("    private ");
    reveal_strlit("() {\n        throw new UnsupportedOperationException(\"");
    reveal_strlit("() {");
    reveal_strlit("        throw new UnsupportedOperationException(\"");
    reveal_strlit(" cannot be instantiated\");\n    }\n    ");
    reveal_strlit(" cannot be instantiated\");");
    reveal_strlit("    }\n    ");
    reveal_strlit("private ");
    reveal_strlit("throw new UnsupportedOperationException(\"");
    assert(("\n     */\n    private "@) =~= "\n     */"@ + seq!['\n'] + "    private "@);
    assert(("() {\n        throw new UnsupportedOperationException(\""@) =~= "() {"@ + seq!['\n']
        + "        throw new UnsupportedOperationException(\""@);
    assert((" cannot be instantiated\");\n    }\n    "@) =~= " cannot be instantiated\");"@
        + seq!['\n'] + "    }\n    "@);
    let inner_list = c.methods + (if c.constructors.len() > 0 {
        seq![crate::java_method::spec_drop_method_v()]
    } else {
        Seq::empty()
    }) + seq![crate::java_method::spec_hash_method_v()] + c.constructors;
    let inner_methods = crate::text::join_seq(
        crate::java_class::spec_decl_pieces(inner_list, c.name, false),
        "\n\t"@,
    );
    let inner_ctors = crate::text::join_seq(
        crate::java_class::spec_ctor_pieces(c.constructors, c.name + "Native"@, true),
        "\n\t"@,
    );
    let inner = crate::code::spec_inner_class(c.name, inner_methods, inner_ctors, c.load_lib);
    let outer_methods = crate::text::join_seq(
        crate::java_class::spec_decl_pieces(c.methods, c.name, true),
        "\n"@,
    );
    assert(crate::java_class::spec_ctor_pieces(c.constructors, c.name, false) =~= Seq::<
        Seq<char>,
    >::empty());
    let outer_ctors = crate::text::join_seq(
        crate::java_class::spec_ctor_pieces(c.constructors, c.name, false),
        "\n"@,
    );
    assert(outer_ctors.len() == 0);
    let comment = crate::java_method::spec_comment_or_empty(c.doc_lines);
    let imports = crate::java_class::spec_class_imports(c);
    let p0 = "package "@ + c.namespace + ";\n\n        "@ + crate::code::spec_import_lines(imports)
        + "\n        \n        "@ + comment + "\n        public class "@ + name + " "@
        + Seq::<char>::empty() + "{\n    "@ + Seq::<char>::empty() + "\n    \n    "@;
    let rest = "\n\n    "@ + outer_methods
        + "\n    \n    /**\n     * Get the type of the underlying native class\n     * in a hashed form. This is used to check if\n     * the native class is the same as the one\n     * that is expected.\n     *\n     * @return The type hash of this class\n     */\n    public static long getTypeHash() {\n        return "@
        + name + "Native.getTypeHash();\n    }\n\n    "@ + Seq::<char>::empty() + "\n\n    "@
        + inner + "\n}"@;
    // the constructor header line
    let a3 = p0 + "\n    /**\n     * Disable instantiation of "@ + name + "\n     */"@;
    let l_priv = "    private "@ + name + "() {"@;
    let b3 = "        throw new UnsupportedOperationException(\""@ + name
        + " cannot be instantiated\");\n    }\n    "@ + rest;
    assert(t =~= a3 + seq!['\n'] + l_priv + seq!['\n'] + b3);
    assert(!("    private "@).contains('\n'));
    assert(!("() {"@).contains('\n'));
    crate::text::lemma_no_newline_concat("    private "@, name, "() {"@);
    assert(forall|j: int| 0 <= j < 4 ==> crate::text::is_space(#[trigger] l_priv[j])) by {
        assert(forall|j: int| 0 <= j < 4 ==> l_priv[j] == ("    private "@)[j]);
    }
    assert(l_priv[4] == ("    private "@)[4]);
    assert(!crate::text::is_space(l_priv[4]));
    assert(l_priv.last() == ("() {"@).last());
    assert(!crate::text::is_space(l_priv.last()));
    crate::text::lemma_trim_at(l_priv, 4);
    assert(crate::text::trim_seq(l_priv) =~= "private "@ + name + "() {"@);
    crate::code::lemma_format_keeps_line(t, a3, l_priv, b3);
    // the raising statement
    let a4 = a3 + seq!['\n'] + l_priv;
    let l_throw = "        throw new UnsupportedOperationException(\""@ + name
        + " cannot be instantiated\");"@;
    let b4 = "    }\n    "@ + rest;
    assert(t =~= a4 + seq!['\n'] + l_throw + seq!['\n'] + b4);
    assert(!("        throw new UnsupportedOperationException(\""@).contains('\n'));
    assert(!(" cannot be instantiated\");"@).contains('\n'));
    crate::text::lemma_no_newline_concat(
        "        throw new UnsupportedOperationException(\""@,
        name,
        " cannot be instantiated\");"@,
    );
    assert(forall|j: int| 0 <= j < 8 ==> crate::text::is_space(#[trigger] l_throw[j])) by {
        let lit = "        throw new UnsupportedOperationException(\""@;
        assert(forall|j: int| 0 <= j < 8 ==> l_throw[j] == lit[j]);
    }
    assert(l_throw[8] == ("        throw new UnsupportedOperationException(\""@)[8]);
    assert(!crate::text::is_space(l_throw[8]));
    assert(l_throw.last() == (" cannot be instantiated\");"@).last());
    assert(!crate::text::is_space(l_throw.last()));
    crate::text::lemma_trim_at(l_throw, 8);
    assert(crate::text::trim_seq(l_throw) =~= "throw new UnsupportedOperationException(\""@ + name
        + " cannot be instantiated\");"@);
    crate::code::lemma_format_keeps_line(t, a4, l_throw, b4);
}

/// Law: the two emitters stay in lock-step — a method group that generates
/// successfully yields exactly one bridge function per method, and its
/// declaration side renders exactly one Java declaration and one constructor
/// text per model, whatever the group.
pub proof fn lemma_emitters_in_lock_step(
    ms: Seq<crate::java_method::JavaMethodV>,
    base_name: Seq<char>,
    struct_name: Seq<char>,
    definition: bool,
    inner: bool,
)
    ensures
        crate::java_class::spec_bridges(ms, base_name, struct_name) matches Ok(ps) ==> ps.len()
            == ms.len(),
        crate::java_class::spec_decl_pieces(ms, struct_name, definition).len() == ms.len(),
        crate::java_class::spec_ctor_pieces(ms, struct_name, inner).len() == ms.len(),
    decreases ms.len(),
{
    if ms.len() > 0 {
        lemma_emitters_in_lock_step(ms.drop_last(), base_name, struct_name, definition, inner);
    }
}

} // verus!
