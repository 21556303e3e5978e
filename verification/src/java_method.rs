//! The argument and return-value marshaling text of the bridge generator:
//! how each bridgeable category crosses the boundary in either direction,
//! and the method model both generators are driven from.
use vstd::prelude::*;

verus! {

use vstd::string::StringExecFns;
use crate::errors::{ClassificationError, ClassificationErrorV};
use crate::java_type::{
    JavaType,
    JavaTypeV,
    spec_error_return_val,
    spec_jni_return_type,
};

/// The guard wrapped around a fallible conversion in a bridge body: on an
/// error it returns the `sentinel` after raising the error, unless an
/// exception is already pending.
pub open spec fn spec_match_error(sentinel: Seq<char>, inner: Seq<char>) -> Seq<char> {
    "match "@ + inner
        + ".into_jni_result() { Ok(res) => res, Err(e) => { if env.exception_check().unwrap_or_default() { return "@
        + sentinel + "; } e.throw(&mut env); return "@ + sentinel + "; } }"@
}

/// The conversion of one nullable incoming value into an `Option`, per
/// wrapped category; rejected outside the allow-list.
pub open spec fn spec_option_from_jni(inner: JavaTypeV, arg: Seq<char>) -> Result<
    Seq<char>,
    ClassificationErrorV,
> {
    match inner {
        JavaTypeV::Integer => Ok(
            "jni_bindgen::conversion::option_convert::i32_from_jni(&mut env, "@ + arg + ")"@,
        ),
        JavaTypeV::Long => Ok(
            "jni_bindgen::conversion::option_convert::i64_from_jni(&mut env, "@ + arg + ")"@,
        ),
        JavaTypeV::Float => Ok(
            "if "@ + arg + ".is_null() { Ok(None) } else { env.call_method(&"@ + arg
                + ", \"floatValue\", \"()F\", &[]).and_then(|v| v.f()).map(Some) }"@,
        ),
        JavaTypeV::Double => Ok(
            "if "@ + arg + ".is_null() { Ok(None) } else { env.call_method(&"@ + arg
                + ", \"doubleValue\", \"()D\", &[]).and_then(|v| v.d()).map(Some) }"@,
        ),
        JavaTypeV::Boolean => Ok(
            "jni_bindgen::conversion::option_convert::bool_from_jni(&mut env, "@ + arg + ")"@,
        ),
        JavaTypeV::Short => Ok(
            "jni_bindgen::conversion::option_convert::i16_from_jni(&mut env, "@ + arg + ")"@,
        ),
        JavaTypeV::Char => Ok(
            "jni_bindgen::conversion::option_convert::u16_from_jni(&mut env, "@ + arg + ")"@,
        ),
        JavaTypeV::Byte => Ok(
            "jni_bindgen::conversion::option_convert::i8_from_jni(&mut env, "@ + arg + ")"@,
        ),
        JavaTypeV::Text => Ok(
            "jni_bindgen::conversion::option_convert::string_from_jni(&mut env, "@ + arg + ")"@,
        ),
        JavaTypeV::Reference { target } => Ok(
            "if "@ + arg + ".is_null() { Ok(None) } else { <&"@ + target
                + ">::from_jni(&mut env, "@ + arg + ").map(Some) }"@,
        ),
        JavaTypeV::ListOf { elem_rust, .. } => Ok(
            "if "@ + arg
                + ".is_null() { Ok(None) } else { jni_bindgen::conversion::object_convert::into_vec::<"@
                + elem_rust + ">(&mut env, "@ + arg + ").map(Some) }"@,
        ),
        JavaTypeV::MapOf { key_rust, value_rust, .. } => Ok(
            "if "@ + arg
                + ".is_null() { Ok(None) } else { jni_bindgen::conversion::object_convert::into_hashmap::<"@
                + key_rust + ", "@ + value_rust + ">(&mut env, "@ + arg + ").map(Some) }"@,
        ),
        _ => Err(ClassificationErrorV::UnsupportedOptional),
    }
}

/// How a bridge reads one incoming argument: either a conversion statement
/// bound to a fresh local, or the name of a value that is handed through.
#[derive(Debug)]
pub enum JNIArgGetter {
    Getter(String),
    ArgName(String),
}

pub enum JNIArgGetterV {
    Getter(Seq<char>),
    ArgName(Seq<char>),
}

impl View for JNIArgGetter {
    type V = JNIArgGetterV;

    open spec fn view(&self) -> JNIArgGetterV {
        match self {
            JNIArgGetter::Getter(s) => JNIArgGetterV::Getter(s@),
            JNIArgGetter::ArgName(s) => JNIArgGetterV::ArgName(s@),
        }
    }
}

/// The conversion of the incoming raw value named `arg` into the native
/// representation of category `t`, inside a bridge whose return category is
/// `retv` (whose sentinel the error paths return).
pub open spec fn spec_jni_arg_getter(t: JavaTypeV, arg: Seq<char>, retv: JavaTypeV) -> Result<
    JNIArgGetterV,
    ClassificationErrorV,
> {
    match t {
        JavaTypeV::Text => match spec_error_return_val(retv) {
            Ok(s) => Ok(
                JNIArgGetterV::Getter(
                    spec_match_error(
                        s,
                        "env.get_string(&"@ + arg + ").map(|s| s.into()).into_jni_result()"@,
                    ),
                ),
            ),
            Err(e) => Err(e),
        },
        JavaTypeV::Env { mutable } => Ok(
            JNIArgGetterV::ArgName(
                if mutable {
                    "&mut env"@
                } else {
                    "&env"@
                },
            ),
        ),
        JavaTypeV::Integer => Ok(JNIArgGetterV::Getter(arg + " as i32"@)),
        JavaTypeV::Long => Ok(JNIArgGetterV::Getter(arg + " as i64"@)),
        JavaTypeV::Boolean => Ok(JNIArgGetterV::Getter(arg + " == jni::sys::JNI_TRUE"@)),
        JavaTypeV::Float => Ok(JNIArgGetterV::Getter(arg + " as f32"@)),
        JavaTypeV::Double => Ok(JNIArgGetterV::Getter(arg + " as f64"@)),
        JavaTypeV::Short => Ok(JNIArgGetterV::Getter(arg + " as i16"@)),
        JavaTypeV::Char => Ok(JNIArgGetterV::Getter(arg + " as u16"@)),
        JavaTypeV::Byte => Ok(JNIArgGetterV::Getter(arg + " as i8"@)),
        JavaTypeV::This => Err(ClassificationErrorV::SelfArgument),
        JavaTypeV::Void => Ok(JNIArgGetterV::Getter(Seq::empty())),
        JavaTypeV::Fallible { .. } => Err(ClassificationErrorV::FallibleArgument),
        JavaTypeV::Optional { inner } => match spec_option_from_jni(*inner, arg) {
            Ok(conv) => match spec_error_return_val(retv) {
                Ok(s) => Ok(JNIArgGetterV::Getter(spec_match_error(s, conv))),
                Err(e) => Err(e),
            },
            Err(e) => Err(e),
        },
        JavaTypeV::Reference { target } => match spec_error_return_val(retv) {
            Ok(s) => Ok(
                JNIArgGetterV::Getter(
                    "if "@ + arg
                        + ".is_null() { let _ = env.throw_new(\"java/lang/NullPointerException\", \"The pointer is null\"); return "@
                        + s + "; } else { match <&"@ + target + ">::from_jni(&mut env, "@ + arg
                        + ") { Ok(ptr) => ptr, Err(e) => { let _ = env.throw_new(\"java/lang/RuntimeException\", e.to_string()); return "@
                        + s + "; } } }"@,
                ),
            ),
            Err(e) => Err(e),
        },
        JavaTypeV::Object => Ok(JNIArgGetterV::Getter(arg)),
        JavaTypeV::ListOf { elem_rust, .. } => match spec_error_return_val(retv) {
            Ok(s) => Ok(
                JNIArgGetterV::Getter(
                    spec_match_error(
                        s,
                        "jni_bindgen::conversion::object_convert::into_vec::<"@ + elem_rust
                            + ">(&mut env, "@ + arg + ")"@,
                    ),
                ),
            ),
            Err(e) => Err(e),
        },
        JavaTypeV::MapOf { key_rust, value_rust, .. } => match spec_error_return_val(retv) {
            Ok(s) => Ok(
                JNIArgGetterV::Getter(
                    spec_match_error(
                        s,
                        "jni_bindgen::conversion::object_convert::into_hashmap::<"@ + key_rust
                            + ", "@ + value_rust + ">(&mut env, "@ + arg + ")"@,
                    ),
                ),
            ),
            Err(e) => Err(e),
        },
        JavaTypeV::Interface { rust_path, .. } => match spec_error_return_val(retv) {
            Ok(s) => Ok(
                JNIArgGetterV::Getter(
                    spec_match_error(
                        s,
                        "<Box<"@ + rust_path + ">>::from_jni(&mut env, "@ + arg + ")"@,
                    ),
                ),
            ),
            Err(e) => Err(e),
        },
    }
}

/// The native type a bridge declares for one incoming argument; `None` for
/// the environment, which is already a bridge parameter.
pub open spec fn spec_jni_fn_arg(t: JavaTypeV) -> Result<
    Option<Seq<char>>,
    ClassificationErrorV,
> {
    match t {
        JavaTypeV::Text => Ok(Some("jni::objects::JString<'local>"@)),
        JavaTypeV::This => Err(ClassificationErrorV::SelfArgument),
        JavaTypeV::Env { .. } => Ok(None),
        JavaTypeV::Void => Err(ClassificationErrorV::VoidArgument),
        JavaTypeV::Fallible { .. } => Err(ClassificationErrorV::FallibleArgument),
        JavaTypeV::Optional { .. } | JavaTypeV::Reference { .. } | JavaTypeV::Object
            | JavaTypeV::ListOf { .. } | JavaTypeV::MapOf { .. } | JavaTypeV::Interface {
            ..
        } => Ok(Some("jni::objects::JObject<'local>"@)),
        _ => match spec_jni_return_type(t) {
            Ok(s) => Ok(Some(s)),
            Err(e) => Err(e),
        },
    }
}

impl JavaType {
    /// Emits the error guard around a conversion in a bridge whose return
    /// category is `self`.
    pub fn match_error(&self, inner: &str) -> (r: Result<String, ClassificationError>)
        ensures
            r matches Ok(s) ==> spec_error_return_val(self@) matches Ok(v) && s@
                == spec_match_error(v, inner@),
            r matches Err(e) ==> spec_error_return_val(self@) matches Err(ev) && e@ == ev,
    {
        let sentinel = match self.error_return_val() {
            Ok(s) => s,
            Err(e) => {
                return Err(e);
            },
        };
        let mut s = String::from_str("match ");
        s.append(inner);
        s.append(
            ".into_jni_result() { Ok(res) => res, Err(e) => { if env.exception_check().unwrap_or_default() { return ",
        );
        s.append(sentinel.as_str());
        s.append("; } e.throw(&mut env); return ");
        s.append(sentinel.as_str());
        s.append("; } }");
        Ok(s)
    }
}

/// The marshaling of one native value out to Java inside a callback trait
/// method: binds the converted value to `out` (and a helper local named
/// `arg` + `_inner` where boxing is needed).
pub open spec fn spec_interface_val(t: JavaTypeV, arg: Seq<char>, out: Seq<char>) -> Result<
    Seq<char>,
    ClassificationErrorV,
> {
    let inner_name = arg + "_inner"@;
    match t {
        JavaTypeV::Text => Ok(
            "let "@ + inner_name + " = env.new_string("@ + arg + ")?; let "@ + out
                + " = jni::objects::JValue::from(&"@ + inner_name + ");"@,
        ),
        JavaTypeV::This => Err(ClassificationErrorV::SelfArgument),
        JavaTypeV::Void => Err(ClassificationErrorV::VoidArgument),
        JavaTypeV::Env { .. } => Err(ClassificationErrorV::EnvNotAType),
        JavaTypeV::Fallible { .. } => Err(ClassificationErrorV::FallibleArgument),
        JavaTypeV::Integer | JavaTypeV::Long | JavaTypeV::Boolean | JavaTypeV::Float
            | JavaTypeV::Double | JavaTypeV::Short | JavaTypeV::Char | JavaTypeV::Byte => Ok(
            "let "@ + out + " = "@ + arg + ".into();"@,
        ),
        JavaTypeV::Optional { inner } => match spec_option_into_jni_name(*inner) {
            Ok(f) => Ok(
                "let "@ + inner_name + " = jni_bindgen::conversion::option_convert::"@ + f
                    + "(env, "@ + arg + ")?; let "@ + out + " = jni::objects::JValue::from(&"@
                    + inner_name + ");"@,
            ),
            Err(_) => match *inner {
                JavaTypeV::Float => Ok(
                    "let "@ + inner_name + " = if let Some(v) = "@ + arg
                        + " { env.call_static_method(\"java/lang/Float\", \"valueOf\", \"(F)Ljava/lang/Float;\", &[v.into()]).and_then(|r| r.l())? } else { jni::objects::JObject::null() }; let "@
                        + out + " = jni::objects::JValue::from(&"@ + inner_name + ");"@,
                ),
                JavaTypeV::Double => Ok(
                    "let "@ + inner_name + " = if let Some(v) = "@ + arg
                        + " { env.call_static_method(\"java/lang/Double\", \"valueOf\", \"(D)Ljava/lang/Double;\", &[v.into()]).and_then(|r| r.l())? } else { jni::objects::JObject::null() }; let "@
                        + out + " = jni::objects::JValue::from(&"@ + inner_name + ");"@,
                ),
                JavaTypeV::ListOf { elem_rust, .. } => Ok(
                    "let "@ + inner_name + " = if let Some(s) = "@ + arg
                        + " { jni_bindgen::conversion::object_convert::from_vec::<"@ + elem_rust
                        + ">(env, s)? } else { jni::objects::JObject::null() }; let "@ + out
                        + " = jni::objects::JValue::from(&"@ + inner_name + ");"@,
                ),
                JavaTypeV::MapOf { key_rust, value_rust, .. } => Ok(
                    "let "@ + inner_name + " = if let Some(s) = "@ + arg
                        + " { jni_bindgen::conversion::object_convert::from_hashmap::<"@
                        + key_rust + ", "@ + value_rust
                        + ">(env, s)? } else { jni::objects::JObject::null() }; let "@ + out
                        + " = jni::objects::JValue::from(&"@ + inner_name + ");"@,
                ),
                _ => Err(ClassificationErrorV::UnsupportedOptional),
            },
        },
        JavaTypeV::Reference { .. } => Err(ClassificationErrorV::ReferencePassed),
        JavaTypeV::Object => Ok("let "@ + out + " = (&"@ + arg + ").into();"@),
        JavaTypeV::ListOf { elem_rust, .. } => Ok(
            "let "@ + inner_name + " = jni_bindgen::conversion::object_convert::from_vec::<"@
                + elem_rust + ">(env, "@ + arg + ")?; let "@ + out
                + " = jni::objects::JValue::from(&"@ + inner_name + ");"@,
        ),
        JavaTypeV::MapOf { key_rust, value_rust, .. } => Ok(
            "let "@ + inner_name + " = jni_bindgen::conversion::object_convert::from_hashmap::<"@
                + key_rust + ", "@ + value_rust + ">(env, "@ + arg + ")?; let "@ + out
                + " = jni::objects::JValue::from(&"@ + inner_name + ");"@,
        ),
        JavaTypeV::Interface { .. } => Ok("let "@ + out + " = "@ + arg + ".obj.into();"@),
    }
}

/// The boxing converter name for an optional primitive or text value; the
/// floating-point categories are boxed inline instead, their values having
/// no runtime converter of their own.
pub open spec fn spec_option_into_jni_name(t: JavaTypeV) -> Result<
    Seq<char>,
    ClassificationErrorV,
> {
    match t {
        JavaTypeV::Integer => Ok("i32_into_jni"@),
        JavaTypeV::Long => Ok("i64_into_jni"@),
        JavaTypeV::Boolean => Ok("bool_into_jni"@),
        JavaTypeV::Short => Ok("i16_into_jni"@),
        JavaTypeV::Char => Ok("u16_into_jni"@),
        JavaTypeV::Byte => Ok("i8_into_jni"@),
        JavaTypeV::Text => Ok("string_into_jni"@),
        _ => Err(ClassificationErrorV::UnsupportedOptional),
    }
}

/// The conversion of a Java call result `res` back into the native value a
/// callback trait method returns.
pub open spec fn spec_rust_return_val(t: JavaTypeV) -> Result<Seq<char>, ClassificationErrorV>
    decreases t,
{
    match t {
        JavaTypeV::Text => Ok(
            "env.get_string(&jni::objects::JString::from(res.l()?)).map(Into::into).map_err(Into::into)"@,
        ),
        JavaTypeV::This => Err(ClassificationErrorV::SelfArgument),
        JavaTypeV::Void => Ok("Ok(())"@),
        JavaTypeV::Integer => Ok("res.i().map_err(Into::into)"@),
        JavaTypeV::Long => Ok("res.j().map_err(Into::into)"@),
        JavaTypeV::Boolean => Ok("res.z().map_err(Into::into)"@),
        JavaTypeV::Float => Ok("res.f().map_err(Into::into)"@),
        JavaTypeV::Double => Ok("res.d().map_err(Into::into)"@),
        JavaTypeV::Short => Ok("res.s().map_err(Into::into)"@),
        JavaTypeV::Char => Ok("res.c().map_err(Into::into)"@),
        JavaTypeV::Byte => Ok("res.b().map_err(Into::into)"@),
        JavaTypeV::Env { .. } => Err(ClassificationErrorV::EnvNotAType),
        JavaTypeV::Fallible { inner, .. } => spec_rust_return_val(*inner),
        JavaTypeV::Optional { inner } => match *inner {
            JavaTypeV::Text => Ok(
                "jni_bindgen::conversion::option_convert::string_from_jni(env, res.l()?).map_err(Into::into)"@,
            ),
            JavaTypeV::Void => Ok("Ok(None)"@),
            JavaTypeV::Integer => Ok(
                "jni_bindgen::conversion::option_convert::i32_from_jni(env, res.l()?).map_err(Into::into)"@,
            ),
            JavaTypeV::Long => Ok(
                "jni_bindgen::conversion::option_convert::i64_from_jni(env, res.l()?).map_err(Into::into)"@,
            ),
            JavaTypeV::Boolean => Ok(
                "jni_bindgen::conversion::option_convert::bool_from_jni(env, res.l()?).map_err(Into::into)"@,
            ),
            JavaTypeV::Float => Ok(
                "let res_unpacked = res.l()?; if res_unpacked.is_null() { Ok(None) } else { env.call_method(&res_unpacked, \"floatValue\", \"()F\", &[]).and_then(|v| v.f()).map(Some).map_err(Into::into) }"@,
            ),
            JavaTypeV::Double => Ok(
                "let res_unpacked = res.l()?; if res_unpacked.is_null() { Ok(None) } else { env.call_method(&res_unpacked, \"doubleValue\", \"()D\", &[]).and_then(|v| v.d()).map(Some).map_err(Into::into) }"@,
            ),
            JavaTypeV::Short => Ok(
                "jni_bindgen::conversion::option_convert::i16_from_jni(env, res.l()?).map_err(Into::into)"@,
            ),
            JavaTypeV::Char => Ok(
                "jni_bindgen::conversion::option_convert::u16_from_jni(env, res.l()?).map_err(Into::into)"@,
            ),
            JavaTypeV::Byte => Ok(
                "jni_bindgen::conversion::option_convert::i8_from_jni(env, res.l()?).map_err(Into::into)"@,
            ),
            JavaTypeV::Reference { target } => Ok(
                "let res_unpacked = res.l()?; if res_unpacked.is_null() { Ok(None) } else { <&"@
                    + target + ">::from_jni(env, res_unpacked).map(Some).map_err(Into::into) }"@,
            ),
            JavaTypeV::Object => Ok(
                "let res_unpacked = res.l()?; if res_unpacked.is_null() { Ok(None) } else { Ok(Some(res_unpacked.into())) }"@,
            ),
            JavaTypeV::ListOf { elem_rust, .. } => Ok(
                "let res_unpacked = res.l()?; if res_unpacked.is_null() { Ok(None) } else { jni_bindgen::conversion::object_convert::into_vec::<"@
                    + elem_rust
                    + ">(env, res_unpacked).map(Some).map_err(Into::into) }"@,
            ),
            JavaTypeV::MapOf { key_rust, value_rust, .. } => Ok(
                "let res_unpacked = res.l()?; if res_unpacked.is_null() { Ok(None) } else { jni_bindgen::conversion::object_convert::into_hashmap::<"@
                    + key_rust + ", "@ + value_rust
                    + ">(env, res_unpacked).map(Some).map_err(Into::into) }"@,
            ),
            JavaTypeV::Interface { rust_path, .. } => Ok(
                "let res_unpacked = res.l()?; if res_unpacked.is_null() { Ok(None) } else { <Box<"@
                    + rust_path + ">>::from_jni(env, res_unpacked).map(Some).map_err(Into::into) }"@,
            ),
            JavaTypeV::This => Err(ClassificationErrorV::SelfArgument),
            JavaTypeV::Env { .. } => Err(ClassificationErrorV::EnvNotAType),
            JavaTypeV::Fallible { .. } => Err(ClassificationErrorV::FallibleArgument),
            JavaTypeV::Optional { .. } => Err(ClassificationErrorV::NestedOptional),
        },
        JavaTypeV::Reference { .. } => Err(ClassificationErrorV::ReferencePassed),
        JavaTypeV::Object => Ok("res.l().map_err(Into::into)"@),
        JavaTypeV::ListOf { elem_rust, .. } => Ok(
            "jni_bindgen::conversion::object_convert::into_vec::<"@ + elem_rust
                + ">(env, res.l()?).map_err(Into::into)"@,
        ),
        JavaTypeV::MapOf { key_rust, value_rust, .. } => Ok(
            "jni_bindgen::conversion::object_convert::into_hashmap::<"@ + key_rust + ", "@
                + value_rust + ">(env, res.l()?).map_err(Into::into)"@,
        ),
        JavaTypeV::Interface { rust_path, .. } => Ok(
            "<Box<"@ + rust_path + ">>::from_jni(env, res.l()?).map_err(Into::into)"@,
        ),
    }
}

/// The marshaling of the native result `res` into the value a bridge
/// function returns, raising an exception on a failed fallible operation
/// (with the generated exception class as the fallback) and yielding the
/// sentinel afterwards.
pub open spec fn spec_jni_return_val(t: JavaTypeV) -> Result<Seq<char>, ClassificationErrorV>
    decreases t,
{
    match t {
        JavaTypeV::Text => Ok(
            "match env.new_string(res).into_jni_result() { Ok(str) => str.into_raw(), Err(e) => { if env.exception_check().unwrap_or_default() { return std::ptr::null_mut(); } e.throw(&mut env); std::ptr::null_mut() } }"@,
        ),
        JavaTypeV::This => Ok("Box::into_raw(Box::new(res)) as jni::sys::jlong"@),
        JavaTypeV::Void => Ok("()"@),
        JavaTypeV::Integer => Ok("res as jni::sys::jint"@),
        JavaTypeV::Long => Ok("res as jni::sys::jlong"@),
        JavaTypeV::Boolean => Ok("if res { jni::sys::JNI_TRUE } else { jni::sys::JNI_FALSE }"@),
        JavaTypeV::Float => Ok("res as jni::sys::jfloat"@),
        JavaTypeV::Double => Ok("res as jni::sys::jdouble"@),
        JavaTypeV::Short => Ok("res as jni::sys::jshort"@),
        JavaTypeV::Char => Ok("res as jni::sys::jchar"@),
        JavaTypeV::Byte => Ok("res as jni::sys::jbyte"@),
        JavaTypeV::Object => Ok("res.into_raw()"@),
        JavaTypeV::Fallible { inner, .. } => match spec_jni_return_val(*inner) {
            Ok(ret) => match spec_error_return_val(*inner) {
                Ok(err) => Ok(
                    "match res.into_jni_result().map_err(|e| e.or_class(jni_bindgen::errors::ErrorClass::NativeExecutionException)) { Ok(res) => "@
                        + ret
                        + ", Err(e) => { if env.exception_check().unwrap_or_default() { return "@
                        + err + "; } e.throw(&mut env); "@ + err + " } }"@,
                ),
                Err(e) => Err(e),
            },
            Err(e) => Err(e),
        },
        JavaTypeV::Env { .. } => Err(ClassificationErrorV::EnvNotAType),
        JavaTypeV::Optional { inner } => match spec_option_into_jni_name(*inner) {
            Ok(f) => Ok(
                spec_match_error(
                    "std::ptr::null_mut()"@,
                    "jni_bindgen::conversion::option_convert::"@ + f
                        + "(&mut env, res).map(|o| o.into_raw())"@,
                ),
            ),
            Err(_) => match *inner {
                JavaTypeV::Float => Ok(
                    spec_match_error(
                        "std::ptr::null_mut()"@,
                        "if let Some(v) = res { env.call_static_method(\"java/lang/Float\", \"valueOf\", \"(F)Ljava/lang/Float;\", &[v.into()]).and_then(|r| r.l()).map(|o| o.into_raw()) } else { Ok(std::ptr::null_mut()) }"@,
                    ),
                ),
                JavaTypeV::Double => Ok(
                    spec_match_error(
                        "std::ptr::null_mut()"@,
                        "if let Some(v) = res { env.call_static_method(\"java/lang/Double\", \"valueOf\", \"(D)Ljava/lang/Double;\", &[v.into()]).and_then(|r| r.l()).map(|o| o.into_raw()) } else { Ok(std::ptr::null_mut()) }"@,
                    ),
                ),
                JavaTypeV::ListOf { elem_rust, .. } => Ok(
                    spec_match_error(
                        "std::ptr::null_mut()"@,
                        "if let Some(s) = res { jni_bindgen::conversion::object_convert::from_vec::<"@
                            + elem_rust
                            + ">(&mut env, s).map(|o| o.into_raw()) } else { Ok(std::ptr::null_mut()) }"@,
                    ),
                ),
                JavaTypeV::MapOf { key_rust, value_rust, .. } => Ok(
                    spec_match_error(
                        "std::ptr::null_mut()"@,
                        "if let Some(s) = res { jni_bindgen::conversion::object_convert::from_hashmap::<"@
                            + key_rust + ", "@ + value_rust
                            + ">(&mut env, s).map(|o| o.into_raw()) } else { Ok(std::ptr::null_mut()) }"@,
                    ),
                ),
                _ => Err(ClassificationErrorV::UnsupportedOptional),
            },
        },
        JavaTypeV::Reference { .. } => Err(ClassificationErrorV::ReferenceReturned),
        JavaTypeV::ListOf { elem_rust, .. } => Ok(
            spec_match_error(
                "std::ptr::null_mut()"@,
                "jni_bindgen::conversion::object_convert::from_vec::<"@ + elem_rust
                    + ">(&mut env, res).map(|o| o.into_raw())"@,
            ),
        ),
        JavaTypeV::MapOf { key_rust, value_rust, .. } => Ok(
            spec_match_error(
                "std::ptr::null_mut()"@,
                "jni_bindgen::conversion::object_convert::from_hashmap::<"@ + key_rust + ", "@
                    + value_rust + ">(&mut env, res).map(|o| o.into_raw())"@,
            ),
        ),
        JavaTypeV::Interface { .. } => Err(ClassificationErrorV::InterfaceReturned),
    }
}

fn option_from_jni(inner: &JavaType, arg: &str) -> (r: Result<String, ClassificationError>)
    ensures
        r matches Ok(s) ==> spec_option_from_jni(inner@, arg@) matches Ok(v) && s@ == v,
        r matches Err(e) ==> spec_option_from_jni(inner@, arg@) matches Err(ev) && e@ == ev,
{
    match inner {
        JavaType::Integer => {
            let mut s = String::from_str(
                "jni_bindgen::conversion::option_convert::i32_from_jni(&mut env, ",
            );
            s.append(arg);
            s.append(")");
            Ok(s)
        },
        JavaType::Long => {
            let mut s = String::from_str(
                "jni_bindgen::conversion::option_convert::i64_from_jni(&mut env, ",
            );
            s.append(arg);
            s.append(")");
            Ok(s)
        },
        JavaType::Float => {
            let mut s = String::from_str("if ");
            s.append(arg);
            s.append(".is_null() { Ok(None) } else { env.call_method(&");
            s.append(arg);
            s.append(", \"floatValue\", \"()F\", &[]).and_then(|v| v.f()).map(Some) }");
            Ok(s)
        },
        JavaType::Double => {
            let mut s = String::from_str("if ");
            s.append(arg);
            s.append(".is_null() { Ok(None) } else { env.call_method(&");
            s.append(arg);
            s.append(", \"doubleValue\", \"()D\", &[]).and_then(|v| v.d()).map(Some) }");
            Ok(s)
        },
        JavaType::Boolean => {
            let mut s = String::from_str(
                "jni_bindgen::conversion::option_convert::bool_from_jni(&mut env, ",
            );
            s.append(arg);
            s.append(")");
            Ok(s)
        },
        JavaType::Short => {
            let mut s = String::from_str(
                "jni_bindgen::conversion::option_convert::i16_from_jni(&mut env, ",
            );
            s.append(arg);
            s.append(")");
            Ok(s)
        },
        JavaType::Char => {
            let mut s = String::from_str(
                "jni_bindgen::conversion::option_convert::u16_from_jni(&mut env, ",
            );
            s.append(arg);
            s.append(")");
            Ok(s)
        },
        JavaType::Byte => {
            let mut s = String::from_str(
                "jni_bindgen::conversion::option_convert::i8_from_jni(&mut env, ",
            );
            s.append(arg);
            s.append(")");
            Ok(s)
        },
        JavaType::Text => {
            let mut s = String::from_str(
                "jni_bindgen::conversion::option_convert::string_from_jni(&mut env, ",
            );
            s.append(arg);
            s.append(")");
            Ok(s)
        },
        JavaType::Reference { target } => {
            let mut s = String::from_str("if ");
            s.append(arg);
            s.append(".is_null() { Ok(None) } else { <&");
            s.append(target.as_str());
            s.append(">::from_jni(&mut env, ");
            s.append(arg);
            s.append(").map(Some) }");
            Ok(s)
        },
        JavaType::ListOf { elem_rust, .. } => {
            let mut s = String::from_str("if ");
            s.append(arg);
            s.append(
                ".is_null() { Ok(None) } else { jni_bindgen::conversion::object_convert::into_vec::<",
            );
            s.append(elem_rust.as_str());
            s.append(">(&mut env, ");
            s.append(arg);
            s.append(").map(Some) }");
            Ok(s)
        },
        JavaType::MapOf { key_rust, value_rust, .. } => {
            let mut s = String::from_str("if ");
            s.append(arg);
            s.append(
                ".is_null() { Ok(None) } else { jni_bindgen::conversion::object_convert::into_hashmap::<",
            );
            s.append(key_rust.as_str());
            s.append(", ");
            s.append(value_rust.as_str());
            s.append(">(&mut env, ");
            s.append(arg);
            s.append(").map(Some) }");
            Ok(s)
        },
        _ => Err(ClassificationError::UnsupportedOptional),
    }
}

fn option_into_jni_name(inner: &JavaType) -> (r: Result<String, ClassificationError>)
    ensures
        r matches Ok(s) ==> spec_option_into_jni_name(inner@) matches Ok(v) && s@ == v,
        r matches Err(e) ==> spec_option_into_jni_name(inner@) matches Err(ev) && e@ == ev,
{
    match inner {
        JavaType::Integer => Ok(String::from_str("i32_into_jni")),
        JavaType::Long => Ok(String::from_str("i64_into_jni")),
        JavaType::Boolean => Ok(String::from_str("bool_into_jni")),
        JavaType::Short => Ok(String::from_str("i16_into_jni")),
        JavaType::Char => Ok(String::from_str("u16_into_jni")),
        JavaType::Byte => Ok(String::from_str("i8_into_jni")),
        JavaType::Text => Ok(String::from_str("string_into_jni")),
        _ => Err(ClassificationError::UnsupportedOptional),
    }
}

impl JavaType {
    /// Emits the conversion of a Java call result back into the native value
    /// a callback trait method returns.
    pub fn as_rust_return_val(&self) -> (r: Result<String, ClassificationError>)
        ensures
            r matches Ok(s) ==> spec_rust_return_val(self@) matches Ok(v) && s@ == v,
            r matches Err(e) ==> spec_rust_return_val(self@) matches Err(ev) && e@ == ev,
        decreases *self,
    {
        proof {
            reveal_with_fuel(crate::java_type::jt_view, 2);
        }
        match self {
            JavaType::Text => Ok(
                String::from_str(
                    "env.get_string(&jni::objects::JString::from(res.l()?)).map(Into::into).map_err(Into::into)",
                ),
            ),
            JavaType::This => Err(ClassificationError::SelfArgument),
            JavaType::Void => Ok(String::from_str("Ok(())")),
            JavaType::Integer => Ok(String::from_str("res.i().map_err(Into::into)")),
            JavaType::Long => Ok(String::from_str("res.j().map_err(Into::into)")),
            JavaType::Boolean => Ok(String::from_str("res.z().map_err(Into::into)")),
            JavaType::Float => Ok(String::from_str("res.f().map_err(Into::into)")),
            JavaType::Double => Ok(String::from_str("res.d().map_err(Into::into)")),
            JavaType::Short => Ok(String::from_str("res.s().map_err(Into::into)")),
            JavaType::Char => Ok(String::from_str("res.c().map_err(Into::into)")),
            JavaType::Byte => Ok(String::from_str("res.b().map_err(Into::into)")),
            JavaType::Env { .. } => Err(ClassificationError::EnvNotAType),
            JavaType::Fallible { inner, .. } => inner.as_rust_return_val(),
            JavaType::Optional { inner } => match &**inner {
                JavaType::Text => Ok(
                    String::from_str(
                        "jni_bindgen::conversion::option_convert::string_from_jni(env, res.l()?).map_err(Into::into)",
                    ),
                ),
                JavaType::Void => Ok(String::from_str("Ok(None)")),
                JavaType::Integer => Ok(
                    String::from_str(
                        "jni_bindgen::conversion::option_convert::i32_from_jni(env, res.l()?).map_err(Into::into)",
                    ),
                ),
                JavaType::Long => Ok(
                    String::from_str(
                        "jni_bindgen::conversion::option_convert::i64_from_jni(env, res.l()?).map_err(Into::into)",
                    ),
                ),
                JavaType::Boolean => Ok(
                    String::from_str(
                        "jni_bindgen::conversion::option_convert::bool_from_jni(env, res.l()?).map_err(Into::into)",
                    ),
                ),
                JavaType::Float => Ok(
                    String::from_str(
                        "let res_unpacked = res.l()?; if res_unpacked.is_null() { Ok(None) } else { env.call_method(&res_unpacked, \"floatValue\", \"()F\", &[]).and_then(|v| v.f()).map(Some).map_err(Into::into) }",
                    ),
                ),
                JavaType::Double => Ok(
                    String::from_str(
                        "let res_unpacked = res.l()?; if res_unpacked.is_null() { Ok(None) } else { env.call_method(&res_unpacked, \"doubleValue\", \"()D\", &[]).and_then(|v| v.d()).map(Some).map_err(Into::into) }",
                    ),
                ),
                JavaType::Short => Ok(
                    String::from_str(
                        "jni_bindgen::conversion::option_convert::i16_from_jni(env, res.l()?).map_err(Into::into)",
                    ),
                ),
                JavaType::Char => Ok(
                    String::from_str(
                        "jni_bindgen::conversion::option_convert::u16_from_jni(env, res.l()?).map_err(Into::into)",
                    ),
                ),
                JavaType::Byte => Ok(
                    String::from_str(
                        "jni_bindgen::conversion::option_convert::i8_from_jni(env, res.l()?).map_err(Into::into)",
                    ),
                ),
                JavaType::Reference { target } => {
                    let mut s = String::from_str(
                        "let res_unpacked = res.l()?; if res_unpacked.is_null() { Ok(None) } else { <&",
                    );
                    s.append(target.as_str());
                    s.append(">::from_jni(env, res_unpacked).map(Some).map_err(Into::into) }");
                    Ok(s)
                },
                JavaType::Object => Ok(
                    String::from_str(
                        "let res_unpacked = res.l()?; if res_unpacked.is_null() { Ok(None) } else { Ok(Some(res_unpacked.into())) }",
                    ),
                ),
                JavaType::ListOf { elem_rust, .. } => {
                    let mut s = String::from_str(
                        "let res_unpacked = res.l()?; if res_unpacked.is_null() { Ok(None) } else { jni_bindgen::conversion::object_convert::into_vec::<",
                    );
                    s.append(elem_rust.as_str());
                    s.append(">(env, res_unpacked).map(Some).map_err(Into::into) }");
                    Ok(s)
                },
                JavaType::MapOf { key_rust, value_rust, .. } => {
                    let mut s = String::from_str(
                        "let res_unpacked = res.l()?; if res_unpacked.is_null() { Ok(None) } else { jni_bindgen::conversion::object_convert::into_hashmap::<",
                    );
                    s.append(key_rust.as_str());
                    s.append(", ");
                    s.append(value_rust.as_str());
                    s.append(">(env, res_unpacked).map(Some).map_err(Into::into) }");
                    Ok(s)
                },
                JavaType::Interface { rust_path, .. } => {
                    let mut s = String::from_str(
                        "let res_unpacked = res.l()?; if res_unpacked.is_null() { Ok(None) } else { <Box<",
                    );
                    s.append(rust_path.as_str());
                    s.append(">>::from_jni(env, res_unpacked).map(Some).map_err(Into::into) }");
                    Ok(s)
                },
                JavaType::This => Err(ClassificationError::SelfArgument),
                JavaType::Env { .. } => Err(ClassificationError::EnvNotAType),
                JavaType::Fallible { .. } => Err(ClassificationError::FallibleArgument),
                JavaType::Optional { .. } => Err(ClassificationError::NestedOptional),
            },
            JavaType::Reference { .. } => Err(ClassificationError::ReferencePassed),
            JavaType::Object => Ok(String::from_str("res.l().map_err(Into::into)")),
            JavaType::ListOf { elem_rust, .. } => {
                let mut s = String::from_str(
                    "jni_bindgen::conversion::object_convert::into_vec::<",
                );
                s.append(elem_rust.as_str());
                s.append(">(env, res.l()?).map_err(Into::into)");
                Ok(s)
            },
            JavaType::MapOf { key_rust, value_rust, .. } => {
                let mut s = String::from_str(
                    "jni_bindgen::conversion::object_convert::into_hashmap::<",
                );
                s.append(key_rust.as_str());
                s.append(", ");
                s.append(value_rust.as_str());
                s.append(">(env, res.l()?).map_err(Into::into)");
                Ok(s)
            },
            JavaType::Interface { rust_path, .. } => {
                let mut s = String::from_str("<Box<");
                s.append(rust_path.as_str());
                s.append(">>::from_jni(env, res.l()?).map_err(Into::into)");
                Ok(s)
            },
        }
    }

    /// Emits the marshaling of the native result into the value the bridge
    /// function returns, with exception translation for fallible operations.
    pub fn as_jni_return_val(&self) -> (r: Result<String, ClassificationError>)
        ensures
            r matches Ok(s) ==> spec_jni_return_val(self@) matches Ok(v) && s@ == v,
            r matches Err(e) ==> spec_jni_return_val(self@) matches Err(ev) && e@ == ev,
        decreases *self,
    {
        proof {
            reveal_with_fuel(crate::java_type::jt_view, 2);
        }
        match self {
            JavaType::Text => Ok(
                String::from_str(
                    "match env.new_string(res).into_jni_result() { Ok(str) => str.into_raw(), Err(e) => { if env.exception_check().unwrap_or_default() { return std::ptr::null_mut(); } e.throw(&mut env); std::ptr::null_mut() } }",
                ),
            ),
            JavaType::This => Ok(String::from_str("Box::into_raw(Box::new(res)) as jni::sys::jlong")),
            JavaType::Void => Ok(String::from_str("()")),
            JavaType::Integer => Ok(String::from_str("res as jni::sys::jint")),
            JavaType::Long => Ok(String::from_str("res as jni::sys::jlong")),
            JavaType::Boolean => Ok(
                String::from_str("if res { jni::sys::JNI_TRUE } else { jni::sys::JNI_FALSE }"),
            ),
            JavaType::Float => Ok(String::from_str("res as jni::sys::jfloat")),
            JavaType::Double => Ok(String::from_str("res as jni::sys::jdouble")),
            JavaType::Short => Ok(String::from_str("res as jni::sys::jshort")),
            JavaType::Char => Ok(String::from_str("res as jni::sys::jchar")),
            JavaType::Byte => Ok(String::from_str("res as jni::sys::jbyte")),
            JavaType::Object => Ok(String::from_str("res.into_raw()")),
            JavaType::Fallible { inner, .. } => {
                let ret = match inner.as_jni_return_val() {
                    Ok(v) => v,
                    Err(e) => {
                        return Err(e);
                    },
                };
                let err = match inner.error_return_val() {
                    Ok(v) => v,
                    Err(e) => {
                        return Err(e);
                    },
                };
                let mut s = String::from_str(
                    "match res.into_jni_result().map_err(|e| e.or_class(jni_bindgen::errors::ErrorClass::NativeExecutionException)) { Ok(res) => ",
                );
                s.append(ret.as_str());
                s.append(", Err(e) => { if env.exception_check().unwrap_or_default() { return ");
                s.append(err.as_str());
                s.append("; } e.throw(&mut env); ");
                s.append(err.as_str());
                s.append(" } }");
                Ok(s)
            },
            JavaType::Env { .. } => Err(ClassificationError::EnvNotAType),
            JavaType::Optional { inner } => match option_into_jni_name(inner) {
                Ok(f) => {
                    let mut c = String::from_str("jni_bindgen::conversion::option_convert::");
                    c.append(f.as_str());
                    c.append("(&mut env, res).map(|o| o.into_raw())");
                    self.match_error(c.as_str())
                },
                Err(_) => match &**inner {
                    JavaType::Float => {
                        let c = String::from_str(
                            "if let Some(v) = res { env.call_static_method(\"java/lang/Float\", \"valueOf\", \"(F)Ljava/lang/Float;\", &[v.into()]).and_then(|r| r.l()).map(|o| o.into_raw()) } else { Ok(std::ptr::null_mut()) }",
                        );
                        self.match_error(c.as_str())
                    },
                    JavaType::Double => {
                        let c = String::from_str(
                            "if let Some(v) = res { env.call_static_method(\"java/lang/Double\", \"valueOf\", \"(D)Ljava/lang/Double;\", &[v.into()]).and_then(|r| r.l()).map(|o| o.into_raw()) } else { Ok(std::ptr::null_mut()) }",
                        );
                        self.match_error(c.as_str())
                    },
                    JavaType::ListOf { elem_rust, .. } => {
                        let mut c = String::from_str(
                            "if let Some(s) = res { jni_bindgen::conversion::object_convert::from_vec::<",
                        );
                        c.append(elem_rust.as_str());
                        c.append(
                            ">(&mut env, s).map(|o| o.into_raw()) } else { Ok(std::ptr::null_mut()) }",
                        );
                        self.match_error(c.as_str())
                    },
                    JavaType::MapOf { key_rust, value_rust, .. } => {
                        let mut c = String::from_str(
                            "if let Some(s) = res { jni_bindgen::conversion::object_convert::from_hashmap::<",
                        );
                        c.append(key_rust.as_str());
                        c.append(", ");
                        c.append(value_rust.as_str());
                        c.append(
                            ">(&mut env, s).map(|o| o.into_raw()) } else { Ok(std::ptr::null_mut()) }",
                        );
                        self.match_error(c.as_str())
                    },
                    _ => Err(ClassificationError::UnsupportedOptional),
                },
            },
            JavaType::Reference { .. } => Err(ClassificationError::ReferenceReturned),
            JavaType::ListOf { elem_rust, .. } => {
                let mut c = String::from_str(
                    "jni_bindgen::conversion::object_convert::from_vec::<",
                );
                c.append(elem_rust.as_str());
                c.append(">(&mut env, res).map(|o| o.into_raw())");
                self.match_error(c.as_str())
            },
            JavaType::MapOf { key_rust, value_rust, .. } => {
                let mut c = String::from_str(
                    "jni_bindgen::conversion::object_convert::from_hashmap::<",
                );
                c.append(key_rust.as_str());
                c.append(", ");
                c.append(value_rust.as_str());
                c.append(">(&mut env, res).map(|o| o.into_raw())");
                self.match_error(c.as_str())
            },
            JavaType::Interface { .. } => Err(ClassificationError::InterfaceReturned),
        }
    }
}

/// One formal parameter: its native name and its bridgeable category.
#[derive(Debug)]
pub struct JavaArg {
    pub name: String,
    pub java_type: JavaType,
}

pub struct JavaArgV {
    pub name: Seq<char>,
    pub java_type: JavaTypeV,
}

impl View for JavaArg {
    type V = JavaArgV;

    open spec fn view(&self) -> JavaArgV {
        JavaArgV { name: self.name@, java_type: crate::java_type::jt_view(self.java_type) }
    }
}

/// The return category a bridge marshals against: the declared one, or void.
pub open spec fn spec_ret_or_void(ret: Option<&JavaType>) -> JavaTypeV {
    match ret {
        Some(t) => t@,
        None => JavaTypeV::Void,
    }
}

impl JavaArg {
    /// The implicit receiver parameter.
    pub fn receiver() -> (r: Self)
        ensures
            r@.name == "self"@,
            r@.java_type is This,
    {
        JavaArg { name: String::from_str("self"), java_type: JavaType::This }
    }

    /// Whether this is the receiver.
    pub fn is_self(&self) -> (r: bool)
        ensures
            r == (self@.java_type is This),
    {
        matches!(self.java_type, JavaType::This)
    }

    /// Whether this is the environment parameter.
    pub fn is_env(&self) -> (r: bool)
        ensures
            r == (self@.java_type is Env),
    {
        matches!(self.java_type, JavaType::Env { .. })
    }

    /// The Java type text of this parameter, `None` where it is elided.
    pub fn as_declaration(&self) -> (r: Option<String>)
        ensures
            r matches Some(s) ==> crate::java_type::spec_java_decl(self@.java_type) matches Some(
                v,
            ) && s@ == v,
            r is None ==> crate::java_type::spec_java_decl(self@.java_type) is None,
    {
        self.java_type.as_declaration()
    }

    /// The native parameter type the bridge declares for this argument.
    pub fn as_jni_fn_arg(&self) -> (r: Result<Option<String>, ClassificationError>)
        ensures
            r matches Ok(o) ==> spec_jni_fn_arg(self@.java_type) matches Ok(ov) && (match o {
                Some(s) => ov matches Some(v) && s@ == v,
                None => ov is None,
            }),
            r matches Err(e) ==> spec_jni_fn_arg(self@.java_type) matches Err(ev) && e@ == ev,
    {
        match &self.java_type {
            JavaType::Text => Ok(Some(String::from_str("jni::objects::JString<'local>"))),
            JavaType::This => Err(ClassificationError::SelfArgument),
            JavaType::Env { .. } => Ok(None),
            JavaType::Void => Err(ClassificationError::VoidArgument),
            JavaType::Fallible { .. } => Err(ClassificationError::FallibleArgument),
            JavaType::Optional { .. } | JavaType::Reference { .. } | JavaType::Object
                | JavaType::ListOf { .. } | JavaType::MapOf { .. } | JavaType::Interface {
                ..
            } => Ok(Some(String::from_str("jni::objects::JObject<'local>"))),
            rest => match rest.as_jni_return_type() {
                Ok(s) => Ok(Some(s)),
                Err(e) => Err(e),
            },
        }
    }

    /// The conversion of the incoming raw value named `arg_name` into this
    /// argument's native representation, inside a bridge returning `ret_ty`.
    pub fn as_jni_arg_getter(&self, arg_name: &str, ret_ty: Option<&JavaType>) -> (r: Result<
        JNIArgGetter,
        ClassificationError,
    >)
        ensures
            r matches Ok(g) ==> spec_jni_arg_getter(
                self@.java_type,
                arg_name@,
                spec_ret_or_void(ret_ty),
            ) matches Ok(gv) && g@ == gv,
            r matches Err(e) ==> spec_jni_arg_getter(
                self@.java_type,
                arg_name@,
                spec_ret_or_void(ret_ty),
            ) matches Err(ev) && e@ == ev,
    {
        let void_ty = JavaType::Void;
        let ret: &JavaType = match ret_ty {
            Some(t) => t,
            None => &void_ty,
        };
        match &self.java_type {
            JavaType::Text => {
                let mut c = String::from_str("env.get_string(&");
                c.append(arg_name);
                c.append(").map(|s| s.into()).into_jni_result()");
                match ret.match_error(c.as_str()) {
                    Ok(s) => Ok(JNIArgGetter::Getter(s)),
                    Err(e) => Err(e),
                }
            },
            JavaType::Env { mutable } => Ok(
                JNIArgGetter::ArgName(
                    if *mutable {
                        String::from_str("&mut env")
                    } else {
                        String::from_str("&env")
                    },
                ),
            ),
            JavaType::Integer => {
                let mut s = String::from_str(arg_name);
                s.append(" as i32");
                Ok(JNIArgGetter::Getter(s))
            },
            JavaType::Long => {
                let mut s = String::from_str(arg_name);
                s.append(" as i64");
                Ok(JNIArgGetter::Getter(s))
            },
            JavaType::Boolean => {
                let mut s = String::from_str(arg_name);
                s.append(" == jni::sys::JNI_TRUE");
                Ok(JNIArgGetter::Getter(s))
            },
            JavaType::Float => {
                let mut s = String::from_str(arg_name);
                s.append(" as f32");
                Ok(JNIArgGetter::Getter(s))
            },
            JavaType::Double => {
                let mut s = String::from_str(arg_name);
                s.append(" as f64");
                Ok(JNIArgGetter::Getter(s))
            },
            JavaType::Short => {
                let mut s = String::from_str(arg_name);
                s.append(" as i16");
                Ok(JNIArgGetter::Getter(s))
            },
            JavaType::Char => {
                let mut s = String::from_str(arg_name);
                s.append(" as u16");
                Ok(JNIArgGetter::Getter(s))
            },
            JavaType::Byte => {
                let mut s = String::from_str(arg_name);
                s.append(" as i8");
                Ok(JNIArgGetter::Getter(s))
            },
            JavaType::This => Err(ClassificationError::SelfArgument),
            JavaType::Void => Ok(JNIArgGetter::Getter(String::new())),
            JavaType::Fallible { .. } => Err(ClassificationError::FallibleArgument),
            JavaType::Optional { inner } => match option_from_jni(inner, arg_name) {
                Ok(conv) => match ret.match_error(conv.as_str()) {
                    Ok(s) => Ok(JNIArgGetter::Getter(s)),
                    Err(e) => Err(e),
                },
                Err(e) => Err(e),
            },
            JavaType::Reference { target } => match ret.error_return_val() {
                Ok(sentinel) => {
                    let mut s = String::from_str("if ");
                    s.append(arg_name);
                    s.append(
                        ".is_null() { let _ = env.throw_new(\"java/lang/NullPointerException\", \"The pointer is null\"); return ",
                    );
                    s.append(sentinel.as_str());
                    s.append("; } else { match <&");
                    s.append(target.as_str());
                    s.append(">::from_jni(&mut env, ");
                    s.append(arg_name);
                    s.append(
                        ") { Ok(ptr) => ptr, Err(e) => { let _ = env.throw_new(\"java/lang/RuntimeException\", e.to_string()); return ",
                    );
                    s.append(sentinel.as_str());
                    s.append("; } } }");
                    Ok(JNIArgGetter::Getter(s))
                },
                Err(e) => Err(e),
            },
            JavaType::Object => {
                let s = String::from_str(arg_name);
                Ok(JNIArgGetter::Getter(s))
            },
            JavaType::ListOf { elem_rust, .. } => {
                let mut c = String::from_str(
                    "jni_bindgen::conversion::object_convert::into_vec::<",
                );
                c.append(elem_rust.as_str());
                c.append(">(&mut env, ");
                c.append(arg_name);
                c.append(")");
                match ret.match_error(c.as_str()) {
                    Ok(s) => Ok(JNIArgGetter::Getter(s)),
                    Err(e) => Err(e),
                }
            },
            JavaType::MapOf { key_rust, value_rust, .. } => {
                let mut c = String::from_str(
                    "jni_bindgen::conversion::object_convert::into_hashmap::<",
                );
                c.append(key_rust.as_str());
                c.append(", ");
                c.append(value_rust.as_str());
                c.append(">(&mut env, ");
                c.append(arg_name);
                c.append(")");
                match ret.match_error(c.as_str()) {
                    Ok(s) => Ok(JNIArgGetter::Getter(s)),
                    Err(e) => Err(e),
                }
            },
            JavaType::Interface { rust_path, .. } => {
                let mut c = String::from_str("<Box<");
                c.append(rust_path.as_str());
                c.append(">>::from_jni(&mut env, ");
                c.append(arg_name);
                c.append(")");
                match ret.match_error(c.as_str()) {
                    Ok(s) => Ok(JNIArgGetter::Getter(s)),
                    Err(e) => Err(e),
                }
            },
        }
    }

    /// The marshaling of this argument out to Java inside a callback trait
    /// method body.
    pub fn as_interface_val(&self, arg_name: &str, out_arg: &str) -> (r: Result<
        String,
        ClassificationError,
    >)
        ensures
            r matches Ok(s) ==> spec_interface_val(self@.java_type, arg_name@, out_arg@) matches
                Ok(v) && s@ == v,
            r matches Err(e) ==> spec_interface_val(self@.java_type, arg_name@, out_arg@) matches
                Err(ev) && e@ == ev,
    {
        proof {
            reveal_with_fuel(crate::java_type::jt_view, 2);
        }
        let mut inner_name = String::from_str(arg_name);
        inner_name.append("_inner");
        match &self.java_type {
            JavaType::Text => {
                let mut s = String::from_str("let ");
                s.append(inner_name.as_str());
                s.append(" = env.new_string(");
                s.append(arg_name);
                s.append(")?; let ");
                s.append(out_arg);
                s.append(" = jni::objects::JValue::from(&");
                s.append(inner_name.as_str());
                s.append(");");
                Ok(s)
            },
            JavaType::This => Err(ClassificationError::SelfArgument),
            JavaType::Void => Err(ClassificationError::VoidArgument),
            JavaType::Env { .. } => Err(ClassificationError::EnvNotAType),
            JavaType::Fallible { .. } => Err(ClassificationError::FallibleArgument),
            JavaType::Integer | JavaType::Long | JavaType::Boolean | JavaType::Float
                | JavaType::Double | JavaType::Short | JavaType::Char | JavaType::Byte => {
                let mut s = String::from_str("let ");
                s.append(out_arg);
                s.append(" = ");
                s.append(arg_name);
                s.append(".into();");
                Ok(s)
            },
            JavaType::Optional { inner } => match option_into_jni_name(inner) {
                Ok(f) => {
                    let mut s = String::from_str("let ");
                    s.append(inner_name.as_str());
                    s.append(" = jni_bindgen::conversion::option_convert::");
                    s.append(f.as_str());
                    s.append("(env, ");
                    s.append(arg_name);
                    s.append(")?; let ");
                    s.append(out_arg);
                    s.append(" = jni::objects::JValue::from(&");
                    s.append(inner_name.as_str());
                    s.append(");");
                    Ok(s)
                },
                Err(_) => match &**inner {
                    JavaType::Float => {
                        let mut s = String::from_str("let ");
                        s.append(inner_name.as_str());
                        s.append(" = if let Some(v) = ");
                        s.append(arg_name);
                        s.append(
                            " { env.call_static_method(\"java/lang/Float\", \"valueOf\", \"(F)Ljava/lang/Float;\", &[v.into()]).and_then(|r| r.l())? } else { jni::objects::JObject::null() }; let ",
                        );
                        s.append(out_arg);
                        s.append(" = jni::objects::JValue::from(&");
                        s.append(inner_name.as_str());
                        s.append(");");
                        Ok(s)
                    },
                    JavaType::Double => {
                        let mut s = String::from_str("let ");
                        s.append(inner_name.as_str());
                        s.append(" = if let Some(v) = ");
                        s.append(arg_name);
                        s.append(
                            " { env.call_static_method(\"java/lang/Double\", \"valueOf\", \"(D)Ljava/lang/Double;\", &[v.into()]).and_then(|r| r.l())? } else { jni::objects::JObject::null() }; let ",
                        );
                        s.append(out_arg);
                        s.append(" = jni::objects::JValue::from(&");
                        s.append(inner_name.as_str());
                        s.append(");");
                        Ok(s)
                    },
                    JavaType::ListOf { elem_rust, .. } => {
                        let mut s = String::from_str("let ");
                        s.append(inner_name.as_str());
                        s.append(" = if let Some(s) = ");
                        s.append(arg_name);
                        s.append(" { jni_bindgen::conversion::object_convert::from_vec::<");
                        s.append(elem_rust.as_str());
                        s.append(">(env, s)? } else { jni::objects::JObject::null() }; let ");
                        s.append(out_arg);
                        s.append(" = jni::objects::JValue::from(&");
                        s.append(inner_name.as_str());
                        s.append(");");
                        Ok(s)
                    },
                    JavaType::MapOf { key_rust, value_rust, .. } => {
                        let mut s = String::from_str("let ");
                        s.append(inner_name.as_str());
                        s.append(" = if let Some(s) = ");
                        s.append(arg_name);
                        s.append(" { jni_bindgen::conversion::object_convert::from_hashmap::<");
                        s.append(key_rust.as_str());
                        s.append(", ");
                        s.append(value_rust.as_str());
                        s.append(">(env, s)? } else { jni::objects::JObject::null() }; let ");
                        s.append(out_arg);
                        s.append(" = jni::objects::JValue::from(&");
                        s.append(inner_name.as_str());
                        s.append(");");
                        Ok(s)
                    },
                    _ => Err(ClassificationError::UnsupportedOptional),
                },
            },
            JavaType::Reference { .. } => Err(ClassificationError::ReferencePassed),
            JavaType::Object => {
                let mut s = String::from_str("let ");
                s.append(out_arg);
                s.append(" = (&");
                s.append(arg_name);
                s.append(").into();");
                Ok(s)
            },
            JavaType::ListOf { elem_rust, .. } => {
                let mut s = String::from_str("let ");
                s.append(inner_name.as_str());
                s.append(" = jni_bindgen::conversion::object_convert::from_vec::<");
                s.append(elem_rust.as_str());
                s.append(">(env, ");
                s.append(arg_name);
                s.append(")?; let ");
                s.append(out_arg);
                s.append(" = jni::objects::JValue::from(&");
                s.append(inner_name.as_str());
                s.append(");");
                Ok(s)
            },
            JavaType::MapOf { key_rust, value_rust, .. } => {
                let mut s = String::from_str("let ");
                s.append(inner_name.as_str());
                s.append(" = jni_bindgen::conversion::object_convert::from_hashmap::<");
                s.append(key_rust.as_str());
                s.append(", ");
                s.append(value_rust.as_str());
                s.append(">(env, ");
                s.append(arg_name);
                s.append(")?; let ");
                s.append(out_arg);
                s.append(" = jni::objects::JValue::from(&");
                s.append(inner_name.as_str());
                s.append(");");
                Ok(s)
            },
            JavaType::Interface { .. } => {
                let mut s = String::from_str("let ");
                s.append(out_arg);
                s.append(" = ");
                s.append(arg_name);
                s.append(".obj.into();");
                Ok(s)
            },
        }
    }
}

/// The model of one method or constructor: its host-visible name (after any
/// rename), the original native identifier, the ordered marshaled
/// parameters, the optional return category, whether it is static, whether
/// the receiver is exclusive, and its documentation lines.
#[derive(Debug)]
pub struct JavaMethod {
    pub name: String,
    pub original_name: String,
    pub args: Vec<JavaArg>,
    pub return_type: Option<JavaType>,
    pub static_method: bool,
    pub mut_self: bool,
    pub doc_lines: Vec<String>,
}

pub struct JavaMethodV {
    pub name: Seq<char>,
    pub original_name: Seq<char>,
    pub args: Seq<JavaArgV>,
    pub return_type: Option<JavaTypeV>,
    pub static_method: bool,
    pub mut_self: bool,
    pub doc_lines: Seq<Seq<char>>,
}

impl View for JavaMethod {
    type V = JavaMethodV;

    open spec fn view(&self) -> JavaMethodV {
        JavaMethodV {
            name: self.name@,
            original_name: self.original_name@,
            args: self.args@.map_values(|a: JavaArg| a@),
            return_type: match self.return_type {
                Some(t) => Some(crate::java_type::jt_view(t)),
                None => None,
            },
            static_method: self.static_method,
            mut_self: self.mut_self,
            doc_lines: self.doc_lines@.map_values(|l: String| l@),
        }
    }
}

/// The imports of a whole method: those of its parameters in order, then
/// those of its return category, without duplicates.
pub open spec fn spec_args_imports(args: Seq<JavaArgV>, acc: Seq<Seq<char>>) -> Seq<Seq<char>>
    decreases args.len(),
{
    if args.len() == 0 {
        acc
    } else {
        crate::java_type::spec_imports_acc(
            args.last().java_type,
            spec_args_imports(args.drop_last(), acc),
        )
    }
}

pub open spec fn spec_method_imports(m: JavaMethodV) -> Seq<Seq<char>> {
    let base = spec_args_imports(m.args, Seq::empty());
    match m.return_type {
        Some(t) => crate::java_type::spec_imports_acc(t, base),
        None => base,
    }
}

/// The host-side parameter list pieces: `Type name` for every parameter that
/// is visible in the Java signature, the name in camel case.
pub open spec fn spec_args_pieces(args: Seq<JavaArgV>) -> Seq<Seq<char>>
    decreases args.len(),
{
    if args.len() == 0 {
        Seq::empty()
    } else {
        let rest = spec_args_pieces(args.drop_last());
        match crate::java_type::spec_java_decl(args.last().java_type) {
            Some(d) => rest.push(d + " "@ + crate::casing::camel_of(args.last().name)),
            None => rest,
        }
    }
}

/// The camel-cased names of the Java-visible parameters.
pub open spec fn spec_arg_name_pieces(args: Seq<JavaArgV>) -> Seq<Seq<char>>
    decreases args.len(),
{
    if args.len() == 0 {
        Seq::empty()
    } else {
        let rest = spec_arg_name_pieces(args.drop_last());
        match crate::java_type::spec_java_decl(args.last().java_type) {
            Some(_) => rest.push(crate::casing::camel_of(args.last().name)),
            None => rest,
        }
    }
}

/// The doc comment of a method, rendered in Java form; absent without lines.
pub open spec fn spec_comment(doc_lines: Seq<Seq<char>>) -> Option<Seq<char>> {
    if doc_lines.len() == 0 {
        None
    } else {
        Some(
            "/**\n"@ + crate::text::join_seq(
                doc_lines.map_values(|l: Seq<char>| "* "@ + crate::text::trim_seq(l)),
                "\n"@,
            ) + "\n */\n"@,
        )
    }
}

/// The generated destructor entry as a model value.
pub open spec fn spec_drop_method_v() -> JavaMethodV {
    JavaMethodV {
        name: "drop"@,
        original_name: "drop"@,
        args: seq![JavaArgV { name: "self"@, java_type: JavaTypeV::This }],
        return_type: None,
        static_method: true,
        mut_self: false,
        doc_lines: Seq::empty(),
    }
}

/// The generated type-hash accessor as a model value.
pub open spec fn spec_hash_method_v() -> JavaMethodV {
    JavaMethodV {
        name: "getTypeHash"@,
        original_name: "getTypeHash"@,
        args: Seq::empty(),
        return_type: Some(JavaTypeV::Long),
        static_method: true,
        mut_self: false,
        doc_lines: Seq::empty(),
    }
}

impl JavaMethod {
    /// The generated destructor entry of the inner native class.
    pub fn drop_method() -> (r: Self)
        ensures
            r@ == spec_drop_method_v(),
    {
        let mut args: Vec<JavaArg> = Vec::new();
        args.push(JavaArg::receiver());
        let r = JavaMethod {
            name: String::from_str("drop"),
            original_name: String::from_str("drop"),
            args,
            return_type: None,
            static_method: true,
            mut_self: false,
            doc_lines: Vec::new(),
        };
        proof {
            assert(r@.args =~= seq![JavaArgV { name: "self"@, java_type: JavaTypeV::This }]);
            assert(r@.doc_lines =~= Seq::<Seq<char>>::empty());
        }
        r
    }

    /// The generated type-hash accessor of the inner native class.
    pub fn get_type_hash() -> (r: Self)
        ensures
            r@ == spec_hash_method_v(),
    {
        let r = JavaMethod {
            name: String::from_str("getTypeHash"),
            original_name: String::from_str("getTypeHash"),
            args: Vec::new(),
            return_type: Some(JavaType::Long),
            static_method: true,
            mut_self: false,
            doc_lines: Vec::new(),
        };
        proof {
            assert(r@.args =~= Seq::<JavaArgV>::empty());
            assert(r@.doc_lines =~= Seq::<Seq<char>>::empty());
        }
        r
    }

    /// Folds this method's imports onto `acc`, without duplicates.
    pub fn add_imports(&self, acc: &mut Vec<String>)
        ensures
            final(acc)@.map_values(|p: String| p@) == (match self@.return_type {
                Some(t) => crate::java_type::spec_imports_acc(
                    t,
                    spec_args_imports(self@.args, old(acc)@.map_values(|p: String| p@)),
                ),
                None => spec_args_imports(self@.args, old(acc)@.map_values(|p: String| p@)),
            }),
    {
        let ghost argviews = self@.args;
        let ghost init = old(acc)@.map_values(|p: String| p@);
        let mut i: usize = 0;
        while i < self.args.len()
            invariant
                0 <= i <= self.args.len(),
                argviews == self@.args,
                argviews.len() == self.args@.len(),
                forall|j: int| 0 <= j < self.args@.len() ==> argviews[j] == self.args@[j]@,
                acc@.map_values(|p: String| p@) == spec_args_imports(
                    argviews.take(i as int),
                    init,
                ),
            decreases self.args.len() - i,
        {
            proof {
                assert(argviews.take(i + 1 as int).drop_last() =~= argviews.take(i as int));
                assert(argviews.take(i + 1 as int).last() == argviews[i as int]);
            }
            self.args[i].java_type.add_imports(acc);
            i = i + 1;
        }
        proof {
            assert(argviews.take(self.args@.len() as int) =~= argviews);
        }
        if let Some(ret) = &self.return_type {
            ret.add_imports(acc);
        }
    }

    /// This method's imports, deduplicated, parameters before return.
    pub fn get_imports(&self) -> (r: Vec<String>)
        ensures
            r@.map_values(|p: String| p@) == spec_method_imports(self@),
    {
        let mut acc: Vec<String> = Vec::new();
        proof {
            assert(acc@.map_values(|p: String| p@) =~= Seq::<Seq<char>>::empty());
        }
        self.add_imports(&mut acc);
        acc
    }

    /// The Java parameter list, `Type name` pairs joined with commas.
    pub fn get_args(&self) -> (r: String)
        ensures
            r@ == crate::text::join_seq(spec_args_pieces(self@.args), ", "@),
    {
        let ghost argviews = self@.args;
        let mut pieces: Vec<String> = Vec::new();
        let mut i: usize = 0;
        proof {
            assert(pieces@.map_values(|p: String| p@) =~= spec_args_pieces(argviews.take(0)));
        }
        while i < self.args.len()
            invariant
                0 <= i <= self.args.len(),
                argviews == self@.args,
                argviews.len() == self.args@.len(),
                forall|j: int| 0 <= j < self.args@.len() ==> argviews[j] == self.args@[j]@,
                pieces@.map_values(|p: String| p@) =~= spec_args_pieces(argviews.take(i as int)),
            decreases self.args.len() - i,
        {
            proof {
                assert(argviews.take(i + 1 as int).drop_last() =~= argviews.take(i as int));
                assert(argviews.take(i + 1 as int).last() == argviews[i as int]);
            }
            let arg = &self.args[i];
            match arg.as_declaration() {
                Some(d) => {
                    let mut piece = d;
                    piece.append(" ");
                    piece.append(crate::casing::to_camel_case(arg.name.as_str()).as_str());
                    pieces.push(piece);
                    proof {
                        assert(pieces@.map_values(|p: String| p@) =~= spec_args_pieces(
                            argviews.take(i + 1 as int),
                        ));
                    }
                },
                None => {
                    proof {
                        assert(pieces@.map_values(|p: String| p@) =~= spec_args_pieces(
                            argviews.take(i + 1 as int),
                        ));
                    }
                },
            }
            i = i + 1;
        }
        proof {
            assert(argviews.take(self.args@.len() as int) =~= argviews);
        }
        crate::text::join_all(&pieces, ", ")
    }

    /// The camel-cased Java-visible argument names, joined with commas.
    pub fn get_arg_names(&self) -> (r: String)
        ensures
            r@ == crate::text::join_seq(spec_arg_name_pieces(self@.args), ", "@),
    {
        let ghost argviews = self@.args;
        let mut pieces: Vec<String> = Vec::new();
        let mut i: usize = 0;
        proof {
            assert(pieces@.map_values(|p: String| p@) =~= spec_arg_name_pieces(argviews.take(0)));
        }
        while i < self.args.len()
            invariant
                0 <= i <= self.args.len(),
                argviews == self@.args,
                argviews.len() == self.args@.len(),
                forall|j: int| 0 <= j < self.args@.len() ==> argviews[j] == self.args@[j]@,
                pieces@.map_values(|p: String| p@) =~= spec_arg_name_pieces(
                    argviews.take(i as int),
                ),
            decreases self.args.len() - i,
        {
            proof {
                assert(argviews.take(i + 1 as int).drop_last() =~= argviews.take(i as int));
                assert(argviews.take(i + 1 as int).last() == argviews[i as int]);
            }
            let arg = &self.args[i];
            match arg.as_declaration() {
                Some(_) => {
                    pieces.push(crate::casing::to_camel_case(arg.name.as_str()));
                    proof {
                        assert(pieces@.map_values(|p: String| p@) =~= spec_arg_name_pieces(
                            argviews.take(i + 1 as int),
                        ));
                    }
                },
                None => {
                    proof {
                        assert(pieces@.map_values(|p: String| p@) =~= spec_arg_name_pieces(
                            argviews.take(i + 1 as int),
                        ));
                    }
                },
            }
            i = i + 1;
        }
        proof {
            assert(argviews.take(self.args@.len() as int) =~= argviews);
        }
        crate::text::join_all(&pieces, ", ")
    }

    /// The rendered doc comment, absent where no lines were given.
    pub fn get_comment(&self) -> (r: Option<String>)
        ensures
            r matches Some(s) ==> spec_comment(self@.doc_lines) matches Some(v) && s@ == v,
            r is None ==> spec_comment(self@.doc_lines) is None,
    {
        if self.doc_lines.len() == 0 {
            return None;
        }
        let ghost lineviews = self@.doc_lines;
        let mut pieces: Vec<String> = Vec::new();
        let mut i: usize = 0;
        proof {
            assert(pieces@.map_values(|p: String| p@) =~= lineviews.take(0).map_values(
                |l: Seq<char>| "* "@ + crate::text::trim_seq(l),
            ));
        }
        while i < self.doc_lines.len()
            invariant
                0 <= i <= self.doc_lines.len(),
                lineviews == self@.doc_lines,
                lineviews.len() == self.doc_lines@.len(),
                forall|j: int| 0 <= j < self.doc_lines@.len() ==> lineviews[j]
                    == self.doc_lines@[j]@,
                pieces@.map_values(|p: String| p@) =~= lineviews.take(i as int).map_values(
                    |l: Seq<char>| "* "@ + crate::text::trim_seq(l),
                ),
            decreases self.doc_lines.len() - i,
        {
            let mut piece = String::from_str("* ");
            piece.append(crate::text::trim(self.doc_lines[i].as_str()).as_str());
            pieces.push(piece);
            proof {
                assert(lineviews.take(i + 1 as int).map_values(
                    |l: Seq<char>| "* "@ + crate::text::trim_seq(l),
                ) =~= lineviews.take(i as int).map_values(
                    |l: Seq<char>| "* "@ + crate::text::trim_seq(l),
                ).push("* "@ + crate::text::trim_seq(lineviews[i as int])));
                assert(pieces@.map_values(|p: String| p@) =~= lineviews.take(i + 1 as int).map_values(
                    |l: Seq<char>| "* "@ + crate::text::trim_seq(l),
                ));
            }
            i = i + 1;
        }
        proof {
            assert(lineviews.take(self.doc_lines@.len() as int) =~= lineviews);
        }
        let mut s = String::from_str("/**\n");
        s.append(crate::text::join_all(&pieces, "\n").as_str());
        s.append("\n */\n");
        Some(s)
    }
}

/// The `throws` clause of a method, present on fallible operations.
pub open spec fn spec_throws(ret: Option<JavaTypeV>) -> Seq<char> {
    if ret matches Some(t) && t is Fallible {
        " throws NativeExecutionException"@
    } else {
        Seq::empty()
    }
}

/// The rendered comment of a method, or nothing.
pub open spec fn spec_comment_or_empty(doc_lines: Seq<Seq<char>>) -> Seq<char> {
    match spec_comment(doc_lines) {
        Some(c) => c,
        None => Seq::empty(),
    }
}

/// The Java constructor text: the outer form delegates to a fresh inner
/// native object, anchoring `this` as the garbage-collection referent; the
/// inner form calls the constructor bridge through `super` and is private.
pub open spec fn spec_as_constructor(m: JavaMethodV, class_name: Seq<char>, inner: bool) -> Seq<
    char,
> {
    let names = crate::text::join_seq(spec_arg_name_pieces(m.args), ", "@);
    let code = if inner {
        "super("@ + crate::casing::camel_of(m.name) + "("@ + names + "), referent);"@
    } else {
        "inner = new "@ + class_name + "Native("@ + (if names.len() > 0 {
            names + ", "@
        } else {
            names
        }) + "this);"@
    };
    let base_args = crate::text::join_seq(spec_args_pieces(m.args), ", "@);
    let args = if inner {
        (if base_args.len() > 0 {
            base_args + ", "@
        } else {
            base_args
        }) + "Object referent"@
    } else {
        base_args
    };
    let public = if inner {
        "private"@
    } else {
        "public"@
    };
    spec_comment_or_empty(m.doc_lines) + public + " "@ + class_name + "("@ + args + ")"@
        + spec_throws(m.return_type) + " {\n        "@ + code + "\n        }\n        "@
}

/// Whether the return category, where present, has a Java declaration.
pub open spec fn declarable_ret(m: JavaMethodV) -> bool {
    m.return_type matches Some(t) ==> crate::java_type::spec_java_decl(t) is Some
}

/// The Java method text: a public forwarding definition on the outer class,
/// or a private `native` declaration on the inner one.
pub open spec fn spec_as_declaration(m: JavaMethodV, struct_name: Seq<char>, definition: bool) -> Seq<char>
    recommends
        declarable_ret(m),
{
    let ret_decl = match m.return_type {
        Some(t) => match crate::java_type::spec_java_decl(t) {
            Some(d) => d,
            None => "void"@,
        },
        None => "void"@,
    };
    let static_kw = if m.static_method {
        "static "@
    } else {
        Seq::empty()
    };
    let native_kw = if definition {
        Seq::empty()
    } else {
        "native "@
    };
    let def = if definition {
        let retkw = if m.return_type matches Some(t) && !crate::java_type::spec_is_void(t, true) {
            "return "@
        } else {
            Seq::empty()
        };
        let callee = if m.static_method {
            struct_name + "Native"@
        } else {
            "inner"@
        };
        " {\n\t\t"@ + retkw + callee + "."@ + crate::casing::camel_of(m.name) + "("@
            + crate::text::join_seq(spec_arg_name_pieces(m.args), ", "@) + ");\n\t}"@
    } else {
        ";"@
    };
    let public = if definition {
        "public"@
    } else {
        "private"@
    };
    "\t"@ + spec_comment_or_empty(m.doc_lines) + public + " "@ + static_kw + native_kw + ret_decl
        + " "@ + crate::casing::camel_of(m.name) + "("@ + crate::text::join_seq(
        spec_args_pieces(m.args),
        ", "@,
    ) + ")"@ + spec_throws(m.return_type) + def
}

impl JavaMethod {
    fn throws_or_empty(&self) -> (r: String)
        ensures
            r@ == spec_throws(self@.return_type),
    {
        match &self.return_type {
            Some(t) => match t.throws() {
                Some(s) => s,
                None => String::new(),
            },
            None => String::new(),
        }
    }

    fn comment_or_empty(&self) -> (r: String)
        ensures
            r@ == spec_comment_or_empty(self@.doc_lines),
    {
        match self.get_comment() {
            Some(c) => c,
            None => String::new(),
        }
    }

    /// Emits this constructor, in its outer or inner Java form.
    pub fn as_constructor(&self, class_name: &str, inner: bool) -> (r: String)
        ensures
            r@ == spec_as_constructor(self@, class_name@, inner),
    {
        let names = self.get_arg_names();
        let code = if inner {
            let mut c = String::from_str("super(");
            c.append(crate::casing::to_camel_case(self.name.as_str()).as_str());
            c.append("(");
            c.append(names.as_str());
            c.append("), referent);");
            c
        } else {
            let mut c = String::from_str("inner = new ");
            c.append(class_name);
            c.append("Native(");
            c.append(names.as_str());
            if names.unicode_len() > 0 {
                c.append(", ");
            }
            c.append("this);");
            c
        };
        let base_args = self.get_args();
        let mut args = base_args;
        if inner {
            if args.unicode_len() > 0 {
                args.append(", ");
            }
            args.append("Object referent");
        }
        let mut s = self.comment_or_empty();
        if inner {
            s.append("private");
        } else {
            s.append("public");
        }
        s.append(" ");
        s.append(class_name);
        s.append("(");
        s.append(args.as_str());
        s.append(")");
        s.append(self.throws_or_empty().as_str());
        s.append(" {\n        ");
        s.append(code.as_str());
        s.append("\n        }\n        ");
        proof {
            assert(s@ =~= spec_as_constructor(self@, class_name@, inner));
        }
        s
    }

    /// Whether the return category, where present, has a Java declaration;
    /// a method's Java text is only defined on such models, and the
    /// classifier never builds any other.
    pub fn has_declarable_ret(&self) -> (r: bool)
        ensures
            r == declarable_ret(self@),
    {
        match &self.return_type {
            Some(t) => t.as_declaration().is_some(),
            None => true,
        }
    }

    /// Emits this method's Java text: the forwarding definition or the
    /// `native` declaration.
    #[verifier::rlimit(30)]
    pub fn as_declaration(&self, struct_name: &str, definition: bool) -> (r: String)
        requires
            declarable_ret(self@),
        ensures
            r@ == spec_as_declaration(self@, struct_name@, definition),
    {
        let ret_decl = match &self.return_type {
            Some(t) => match t.as_declaration() {
                Some(d) => d,
                None => String::from_str("void"),
            },
            None => String::from_str("void"),
        };
        let mut s = String::from_str("\t");
        s.append(self.comment_or_empty().as_str());
        if definition {
            s.append("public");
        } else {
            s.append("private");
        }
        s.append(" ");
        if self.static_method {
            s.append("static ");
        }
        if !definition {
            s.append("native ");
        }
        s.append(ret_decl.as_str());
        s.append(" ");
        s.append(crate::casing::to_camel_case(self.name.as_str()).as_str());
        s.append("(");
        s.append(self.get_args().as_str());
        s.append(")");
        s.append(self.throws_or_empty().as_str());
        if definition {
            s.append(" {\n\t\t");
            let is_void_ret = match &self.return_type {
                Some(t) => t.is_void(true),
                None => true,
            };
            if !is_void_ret {
                s.append("return ");
            }
            if self.static_method {
                s.append(struct_name);
                s.append("Native");
            } else {
                s.append("inner");
            }
            s.append(".");
            s.append(crate::casing::to_camel_case(self.name.as_str()).as_str());
            s.append("(");
            s.append(self.get_arg_names().as_str());
            s.append(");\n\t}");
        } else {
            s.append(";");
        }
        proof {
            assert(s@ =~= spec_as_declaration(self@, struct_name@, definition));
        }
        s
    }
}

/// How many arguments so far take a bridge position (everything but the
/// receiver); bridge argument indexes count these.
pub open spec fn spec_nonself_count(args: Seq<JavaArgV>) -> nat
    decreases args.len(),
{
    if args.len() == 0 {
        0
    } else {
        spec_nonself_count(args.drop_last()) + if args.last().java_type is This {
            0nat
        } else {
            1nat
        }
    }
}

/// The declared bridge parameters, `j_arg_<i>: <type>`, skipping the
/// receiver and the environment.
pub open spec fn spec_j_args_pieces(args: Seq<JavaArgV>) -> Result<
    Seq<Seq<char>>,
    ClassificationErrorV,
>
    decreases args.len(),
{
    if args.len() == 0 {
        Ok(Seq::empty())
    } else {
        match spec_j_args_pieces(args.drop_last()) {
            Err(e) => Err(e),
            Ok(rest) => {
                let a = args.last();
                if a.java_type is This {
                    Ok(rest)
                } else {
                    match spec_jni_fn_arg(a.java_type) {
                        Err(e) => Err(e),
                        Ok(None) => Ok(rest),
                        Ok(Some(ty)) => Ok(
                            rest.push(
                                "j_arg_"@ + crate::text::dec_str(
                                    spec_nonself_count(args.drop_last()),
                                ) + ": "@ + ty,
                            ),
                        ),
                    }
                }
            },
        }
    }
}

/// The conversion statements binding `arg_<i>` locals, skipping the receiver
/// and arguments that are handed through by name.
pub open spec fn spec_converter_pieces(args: Seq<JavaArgV>, retv: JavaTypeV) -> Result<
    Seq<Seq<char>>,
    ClassificationErrorV,
>
    decreases args.len(),
{
    if args.len() == 0 {
        Ok(Seq::empty())
    } else {
        match spec_converter_pieces(args.drop_last(), retv) {
            Err(e) => Err(e),
            Ok(rest) => {
                let a = args.last();
                if a.java_type is This {
                    Ok(rest)
                } else {
                    let i = spec_nonself_count(args.drop_last());
                    match spec_jni_arg_getter(
                        a.java_type,
                        "j_arg_"@ + crate::text::dec_str(i),
                        retv,
                    ) {
                        Err(e) => Err(e),
                        Ok(JNIArgGetterV::Getter(g)) => Ok(
                            rest.push("let arg_"@ + crate::text::dec_str(i) + " = "@ + g + ";"@),
                        ),
                        Ok(JNIArgGetterV::ArgName(_)) => Ok(rest),
                    }
                }
            },
        }
    }
}

/// What each argument becomes at the underlying call: the environment by
/// reference, every other argument through its converted local.
pub open spec fn spec_call_arg_pieces(args: Seq<JavaArgV>) -> Seq<Seq<char>>
    decreases args.len(),
{
    if args.len() == 0 {
        Seq::empty()
    } else {
        let rest = spec_call_arg_pieces(args.drop_last());
        let a = args.last();
        match a.java_type {
            JavaTypeV::This => rest,
            JavaTypeV::Env { mutable } => rest.push(
                if mutable {
                    "&mut env"@
                } else {
                    "&env"@
                },
            ),
            _ => rest.push(
                "arg_"@ + crate::text::dec_str(spec_nonself_count(args.drop_last())),
            ),
        }
    }
}

proof fn lemma_j_args_err(args: Seq<JavaArgV>, j: int)
    requires
        0 <= j <= args.len(),
        spec_j_args_pieces(args.take(j)) is Err,
    ensures
        spec_j_args_pieces(args) == spec_j_args_pieces(args.take(j)),
    decreases args.len() - j,
{
    if j == args.len() {
        assert(args.take(j) =~= args);
    } else {
        assert(args.take(j + 1).drop_last() =~= args.take(j));
        lemma_j_args_err(args, j + 1);
    }
}

proof fn lemma_converter_err(args: Seq<JavaArgV>, retv: JavaTypeV, j: int)
    requires
        0 <= j <= args.len(),
        spec_converter_pieces(args.take(j), retv) is Err,
    ensures
        spec_converter_pieces(args, retv) == spec_converter_pieces(args.take(j), retv),
    decreases args.len() - j,
{
    if j == args.len() {
        assert(args.take(j) =~= args);
    } else {
        assert(args.take(j + 1).drop_last() =~= args.take(j));
        lemma_converter_err(args, retv, j + 1);
    }
}

/// The whole bridge function of one method: the external name, the declared
/// parameters, receiver resolution for instance methods, the argument
/// conversions, the underlying call, and the return marshaling.
pub open spec fn spec_as_jni_method(
    m: JavaMethodV,
    base_name: Seq<char>,
    struct_name: Seq<char>,
) -> Result<Seq<char>, ClassificationErrorV> {
    let retv = spec_ret_or_void_v(m.return_type);
    let ret_part = match m.return_type {
        Some(t) => match crate::java_type::spec_jni_return_type(t) {
            Ok(v) => Ok(" -> "@ + v),
            Err(e) => Err(e),
        },
        None => Ok(Seq::<char>::empty()),
    };
    match ret_part {
        Err(e) => Err(e),
        Ok(ret_text) => {
            let ret_val = match m.return_type {
                Some(t) => spec_error_return_val(t),
                None => Ok("()"@),
            };
            match ret_val {
                Err(e) => Err(e),
                Ok(rv) => match spec_j_args_pieces(m.args) {
                    Err(e) => Err(e),
                    Ok(jp) => match spec_converter_pieces(m.args, retv) {
                        Err(e) => Err(e),
                        Ok(cp) => {
                            let ret_res = match m.return_type {
                                Some(t) => spec_jni_return_val(t),
                                None => Ok(Seq::<char>::empty()),
                            };
                            match ret_res {
                                Err(e) => Err(e),
                                Ok(rr) => {
                                    let has_ret = m.return_type matches Some(t)
                                        && !crate::java_type::spec_is_void(t, false);
                                    let this_part = if m.static_method {
                                        Seq::<char>::empty()
                                    } else {
                                        crate::quotes::spec_this(struct_name, rv, m.mut_self)
                                            + "\n"@
                                    };
                                    let class_or_this = if m.static_method {
                                        "class: jni::objects::JClass<'local>"@
                                    } else {
                                        "object: jni::objects::JObject<'local>"@
                                    };
                                    let call = crate::quotes::spec_call(
                                        !m.static_method,
                                        has_ret,
                                        m.original_name,
                                        struct_name,
                                        crate::text::join_seq(spec_call_arg_pieces(m.args), ", "@),
                                    );
                                    Ok(
                                        "#[no_mangle]\npub extern \"system\" fn "@ + base_name
                                            + "_"@ + crate::casing::camel_of(m.name)
                                            + "<'local>(mut env: jni::JNIEnv<'local>, "@
                                            + class_or_this + ", "@ + crate::text::join_seq(
                                            jp,
                                            ", "@,
                                        ) + ")"@ + ret_text
                                            + " {\nuse jni_bindgen::objects::traits::IntoJNIResult;\n"@
                                            + this_part + crate::text::join_seq(cp, "\n"@) + "\n"@
                                            + call + ";\n"@ + rr + "\n}"@,
                                    )
                                },
                            }
                        },
                    },
                },
            }
        },
    }
}

/// The return category a bridge marshals against, in the view.
pub open spec fn spec_ret_or_void_v(ret: Option<JavaTypeV>) -> JavaTypeV {
    match ret {
        Some(t) => t,
        None => JavaTypeV::Void,
    }
}

impl JavaMethod {
    /// Emits the bridge function for this method under the given external
    /// name stem and owning native type.
    #[verifier::loop_isolation(false)]
    #[verifier::rlimit(100)]
    #[verifier::spinoff_prover]
    pub fn as_jni_method(&self, base_name: &str, struct_name: &str) -> (r: Result<
        String,
        ClassificationError,
    >)
        ensures
            r matches Ok(s) ==> spec_as_jni_method(self@, base_name@, struct_name@) matches Ok(v)
                && s@ == v,
            r matches Err(e) ==> spec_as_jni_method(self@, base_name@, struct_name@) matches Err(
                ev,
            ) && e@ == ev,
    {
        let ghost argviews = self@.args;
        let ghost retv = spec_ret_or_void_v(self@.return_type);
        // return type text
        let ret_text: String = match &self.return_type {
            Some(t) => {
                let mut rt = String::from_str(" -> ");
                match t.as_jni_return_type() {
                    Ok(v) => {
                        rt.append(v.as_str());
                        rt
                    },
                    Err(e) => {
                        return Err(e);
                    },
                }
            },
            None => String::new(),
        };
        // sentinel the receiver prelude returns on a dead handle
        let ret_val: String = match &self.return_type {
            Some(t) => match t.error_return_val() {
                Ok(v) => v,
                Err(e) => {
                    return Err(e);
                },
            },
            None => String::from_str("()"),
        };
        // declared bridge parameters
        let void_ty = JavaType::Void;
        let retref: &JavaType = match &self.return_type {
            Some(t) => t,
            None => &void_ty,
        };
        let mut j_pieces: Vec<String> = Vec::new();
        let mut idx: usize = 0;
        let mut i: usize = 0;
        proof {
            assert(j_pieces@.map_values(|p: String| p@) =~= Seq::<Seq<char>>::empty());
            assert(spec_j_args_pieces(argviews.take(0)) == Ok::<_, ClassificationErrorV>(
                Seq::<Seq<char>>::empty(),
            ));
        }
        while i < self.args.len()
            invariant
                0 <= i <= self.args.len(),
                argviews == self@.args,
                argviews.len() == self.args@.len(),
                forall|j: int| 0 <= j < self.args@.len() ==> argviews[j] == self.args@[j]@,
                idx == spec_nonself_count(argviews.take(i as int)),
                idx <= i,
                spec_j_args_pieces(argviews.take(i as int)) == Ok::<_, ClassificationErrorV>(
                    j_pieces@.map_values(|p: String| p@),
                ),
            decreases self.args.len() - i,
        {
            proof {
                assert(argviews.take(i + 1 as int).drop_last() =~= argviews.take(i as int));
                assert(argviews.take(i + 1 as int).last() == argviews[i as int]);
            }
            let arg = &self.args[i];
            if !arg.is_self() {
                let mut jname = String::from_str("j_arg_");
                jname.append(crate::text::usize_to_string(idx).as_str());
                match arg.as_jni_fn_arg() {
                    Err(e) => {
                        proof {
                            lemma_j_args_err(argviews, i + 1 as int);
                        }
                        return Err(e);
                    },
                    Ok(Some(ty)) => {
                        let mut piece = jname.clone();
                        piece.append(": ");
                        piece.append(ty.as_str());
                        j_pieces.push(piece);
                        proof {
                            assert(j_pieces@.map_values(|p: String| p@) =~= spec_j_args_pieces(
                                argviews.take(i + 1 as int),
                            )->Ok_0);
                        }
                    },
                    Ok(None) => {},
                }
                idx = idx + 1;
            }
            i = i + 1;
        }
        let mut c_pieces: Vec<String> = Vec::new();
        let mut call_pieces: Vec<String> = Vec::new();
        idx = 0;
        i = 0;
        proof {
            assert(argviews.take(self.args@.len() as int) =~= argviews);
            assert(spec_converter_pieces(argviews.take(0), retv) == Ok::<
                _,
                ClassificationErrorV,
            >(Seq::<Seq<char>>::empty()));
            assert(spec_call_arg_pieces(argviews.take(0)) =~= Seq::<Seq<char>>::empty());
        }
        while i < self.args.len()
            invariant
                0 <= i <= self.args.len(),
                argviews == self@.args,
                retv == spec_ret_or_void_v(self@.return_type),
                (match &self.return_type {
                    Some(t) => t@ == retv,
                    None => retv is Void,
                }),
                argviews.len() == self.args@.len(),
                forall|j: int| 0 <= j < self.args@.len() ==> argviews[j] == self.args@[j]@,
                idx == spec_nonself_count(argviews.take(i as int)),
                idx <= i,
                spec_j_args_pieces(argviews) == Ok::<_, ClassificationErrorV>(
                    j_pieces@.map_values(|p: String| p@),
                ),
                spec_converter_pieces(argviews.take(i as int), retv) == Ok::<
                    _,
                    ClassificationErrorV,
                >(c_pieces@.map_values(|p: String| p@)),
                spec_call_arg_pieces(argviews.take(i as int)) =~= call_pieces@.map_values(
                    |p: String| p@,
                ),
            decreases self.args.len() - i,
        {
            proof {
                assert(argviews.take(i + 1 as int).drop_last() =~= argviews.take(i as int));
                assert(argviews.take(i + 1 as int).last() == argviews[i as int]);
            }
            let arg = &self.args[i];
            if !arg.is_self() {
                let mut jname = String::from_str("j_arg_");
                jname.append(crate::text::usize_to_string(idx).as_str());
                match arg.as_jni_arg_getter(jname.as_str(), self.return_type.as_ref()) {
                    Err(e) => {
                        proof {
                            lemma_converter_err(argviews, retv, i + 1 as int);
                        }
                        return Err(e);
                    },
                    Ok(JNIArgGetter::Getter(g)) => {
                        let mut piece = String::from_str("let arg_");
                        piece.append(crate::text::usize_to_string(idx).as_str());
                        piece.append(" = ");
                        piece.append(g.as_str());
                        piece.append(";");
                        c_pieces.push(piece);
                        proof {
                            assert(c_pieces@.map_values(|p: String| p@) =~= spec_converter_pieces(
                                argviews.take(i + 1 as int),
                                retv,
                            )->Ok_0);
                        }
                    },
                    Ok(JNIArgGetter::ArgName(_)) => {},
                }
                if arg.is_env() {
                    let mutable = match &arg.java_type {
                        JavaType::Env { mutable } => *mutable,
                        _ => false,
                    };
                    if mutable {
                        call_pieces.push(String::from_str("&mut env"));
                    } else {
                        call_pieces.push(String::from_str("&env"));
                    }
                } else {
                    let mut cname = String::from_str("arg_");
                    cname.append(crate::text::usize_to_string(idx).as_str());
                    call_pieces.push(cname);
                }
                proof {
                    assert(call_pieces@.map_values(|p: String| p@) =~= spec_call_arg_pieces(
                        argviews.take(i + 1 as int),
                    ));
                }
                idx = idx + 1;
            }
            i = i + 1;
        }
        proof {
            assert(argviews.take(self.args@.len() as int) =~= argviews);
        }
        // return marshaling
        let ret_res: String = match &self.return_type {
            Some(t) => match t.as_jni_return_val() {
                Ok(v) => v,
                Err(e) => {
                    return Err(e);
                },
            },
            None => String::new(),
        };
        let has_ret = match &self.return_type {
            Some(t) => !t.is_void(false),
            None => false,
        };
        let call = crate::quotes::call(
            !self.static_method,
            has_ret,
            self.original_name.as_str(),
            struct_name,
            crate::text::join_all(&call_pieces, ", ").as_str(),
        );
        let mut s = String::from_str("#[no_mangle]\npub extern \"system\" fn ");
        s.append(base_name);
        s.append("_");
        s.append(crate::casing::to_camel_case(self.name.as_str()).as_str());
        s.append("<'local>(mut env: jni::JNIEnv<'local>, ");
        if self.static_method {
            s.append("class: jni::objects::JClass<'local>");
        } else {
            s.append("object: jni::objects::JObject<'local>");
        }
        s.append(", ");
        s.append(crate::text::join_all(&j_pieces, ", ").as_str());
        s.append(")");
        s.append(ret_text.as_str());
        s.append(" {\nuse jni_bindgen::objects::traits::IntoJNIResult;\n");
        if !self.static_method {
            s.append(crate::quotes::this(struct_name, ret_val.as_str(), self.mut_self).as_str());
            s.append("\n");
        }
        s.append(crate::text::join_all(&c_pieces, "\n").as_str());
        s.append("\n");
        s.append(call.as_str());
        s.append(";\n");
        s.append(ret_res.as_str());
        s.append("\n}");
        proof {
            assert(s@ =~= spec_as_jni_method(self@, base_name@, struct_name@)->Ok_0);
        }
        Ok(s)
    }
}

/// The first environment parameter's mutability, where one exists.
pub open spec fn spec_find_env(args: Seq<JavaArgV>) -> Option<bool>
    decreases args.len(),
{
    if args.len() == 0 {
        None
    } else {
        match args[0].java_type {
            JavaTypeV::Env { mutable } => Some(mutable),
            _ => spec_find_env(args.drop_first()),
        }
    }
}

/// The parameter list text of a callback trait method, one `name: type, `
/// piece per non-receiver parameter, the environment named `env`.
pub open spec fn spec_trait_args_text(args: Seq<JavaArgV>) -> Seq<char>
    decreases args.len(),
{
    if args.len() == 0 {
        Seq::empty()
    } else {
        let rest = spec_trait_args_text(args.drop_last());
        let a = args.last();
        match a.java_type {
            JavaTypeV::This => rest,
            JavaTypeV::Env { .. } => rest + "env: "@ + crate::java_type::spec_interface_arg(
                a.java_type,
            ) + ", "@,
            _ => rest + "arg_"@ + crate::text::dec_str(spec_nonself_count(args.drop_last()))
                + ": "@ + crate::java_type::spec_interface_arg(a.java_type) + ", "@,
        }
    }
}

/// The outward marshaling statements of a callback trait method.
pub open spec fn spec_trait_vals(args: Seq<JavaArgV>) -> Result<Seq<Seq<char>>, ClassificationErrorV>
    decreases args.len(),
{
    if args.len() == 0 {
        Ok(Seq::empty())
    } else {
        match spec_trait_vals(args.drop_last()) {
            Err(e) => Err(e),
            Ok(rest) => {
                let a = args.last();
                if a.java_type is This || a.java_type is Env {
                    Ok(rest)
                } else {
                    let i = spec_nonself_count(args.drop_last());
                    match spec_interface_val(
                        a.java_type,
                        "arg_"@ + crate::text::dec_str(i),
                        "j_arg_"@ + crate::text::dec_str(i),
                    ) {
                        Ok(v) => Ok(rest.push(v)),
                        Err(e) => Err(e),
                    }
                }
            },
        }
    }
}

/// The marshaled argument names handed to the reflective call.
pub open spec fn spec_trait_jargs_pieces(args: Seq<JavaArgV>) -> Seq<Seq<char>>
    decreases args.len(),
{
    if args.len() == 0 {
        Seq::empty()
    } else {
        let rest = spec_trait_jargs_pieces(args.drop_last());
        let a = args.last();
        if a.java_type is This || a.java_type is Env {
            rest
        } else {
            rest.push("j_arg_"@ + crate::text::dec_str(spec_nonself_count(args.drop_last())))
        }
    }
}

/// The concatenated JNI descriptors of the marshaled parameters.
pub open spec fn spec_trait_decl_text(args: Seq<JavaArgV>) -> Result<
    Seq<char>,
    ClassificationErrorV,
>
    decreases args.len(),
{
    if args.len() == 0 {
        Ok(Seq::empty())
    } else {
        match spec_trait_decl_text(args.drop_last()) {
            Err(e) => Err(e),
            Ok(rest) => {
                let a = args.last();
                if a.java_type is This || a.java_type is Env {
                    Ok(rest)
                } else {
                    match crate::java_type::spec_jni_descriptor(a.java_type) {
                        Ok(d) => Ok(rest + d),
                        Err(e) => Err(e),
                    }
                }
            },
        }
    }
}

proof fn lemma_trait_vals_err(args: Seq<JavaArgV>, j: int)
    requires
        0 <= j <= args.len(),
        spec_trait_vals(args.take(j)) is Err,
    ensures
        spec_trait_vals(args) == spec_trait_vals(args.take(j)),
    decreases args.len() - j,
{
    if j == args.len() {
        assert(args.take(j) =~= args);
    } else {
        assert(args.take(j + 1).drop_last() =~= args.take(j));
        lemma_trait_vals_err(args, j + 1);
    }
}

proof fn lemma_trait_decl_err(args: Seq<JavaArgV>, j: int)
    requires
        0 <= j <= args.len(),
        spec_trait_decl_text(args.take(j)) is Err,
    ensures
        spec_trait_decl_text(args) == spec_trait_decl_text(args.take(j)),
    decreases args.len() - j,
{
    if j == args.len() {
        assert(args.take(j) =~= args);
    } else {
        assert(args.take(j + 1).drop_last() =~= args.take(j));
        lemma_trait_decl_err(args, j + 1);
    }
}

/// The native implementation of one callback trait method: marshals the
/// arguments out, performs the reflective call on the backing Java object,
/// and converts the result back. Requires an instance method with a shared
/// receiver, a mutable environment parameter and a fallible return.
pub open spec fn spec_as_trait_method(m: JavaMethodV) -> Result<Seq<char>, ClassificationErrorV> {
    if m.static_method {
        Err(ClassificationErrorV::TraitMethodStatic)
    } else if !(m.return_type matches Some(t) && t is Fallible) {
        Err(ClassificationErrorV::TraitMethodNotFallible)
    } else {
        match spec_find_env(m.args) {
            None => Err(ClassificationErrorV::TraitMethodNeedsEnv),
            Some(false) => Err(ClassificationErrorV::TraitMethodEnvNotMutable),
            Some(true) => {
                if m.mut_self {
                    Err(ClassificationErrorV::TraitMethodMutableReceiver)
                } else {
                    match spec_trait_vals(m.args) {
                        Err(e) => Err(e),
                        Ok(vals) => match spec_trait_decl_text(m.args) {
                            Err(e) => Err(e),
                            Ok(args_decl) => match crate::java_type::spec_jni_descriptor(
                                m.return_type->0,
                            ) {
                                Err(e) => Err(e),
                                Ok(ret_desc) => match spec_rust_return_val(m.return_type->0) {
                                    Err(e) => Err(e),
                                    Ok(rv) => Ok(
                                        "fn "@ + m.name + "(&self, "@ + spec_trait_args_text(
                                            m.args,
                                        ) + ") -> "@ + (m.return_type->0)->Fallible_rust_text
                                            + " {\n"@ + crate::text::join_seq(vals, "\n"@)
                                            + "\nlet res = env.call_method(&self.obj, \""@
                                            + crate::casing::camel_of(m.name) + "\", \"("@
                                            + args_decl + ")"@ + ret_desc + "\", &["@
                                            + crate::text::join_seq(
                                            spec_trait_jargs_pieces(m.args),
                                            ", "@,
                                        ) + "])?;\n"@ + rv + "\n}"@,
                                    ),
                                },
                            },
                        },
                    }
                }
            },
        }
    }
}

impl JavaMethod {
    fn find_env(&self) -> (r: Option<bool>)
        ensures
            r == spec_find_env(self@.args),
    {
        let ghost argviews = self@.args;
        let mut i: usize = 0;
        proof {
            assert(argviews.skip(0) =~= argviews);
        }
        while i < self.args.len()
            invariant
                0 <= i <= self.args.len(),
                argviews == self@.args,
                argviews.len() == self.args@.len(),
                forall|j: int| 0 <= j < self.args@.len() ==> argviews[j] == self.args@[j]@,
                spec_find_env(argviews) == spec_find_env(argviews.skip(i as int)),
            decreases self.args.len() - i,
        {
            proof {
                assert(argviews.skip(i as int)[0] == argviews[i as int]);
                assert(argviews.skip(i as int).drop_first() =~= argviews.skip(i + 1 as int));
            }
            match &self.args[i].java_type {
                JavaType::Env { mutable } => {
                    return Some(*mutable);
                },
                _ => {},
            }
            i = i + 1;
        }
        proof {
            assert(argviews.skip(self.args@.len() as int) =~= Seq::<JavaArgV>::empty());
        }
        None
    }

    /// Emits the native implementation of this method for the callback
    /// proxy, validating the trait-method shape first.
    #[verifier::loop_isolation(false)]
    #[verifier::rlimit(60)]
    pub fn as_trait_method(&self) -> (r: Result<String, ClassificationError>)
        ensures
            r matches Ok(s) ==> spec_as_trait_method(self@) matches Ok(v) && s@ == v,
            r matches Err(e) ==> spec_as_trait_method(self@) matches Err(ev) && e@ == ev,
    {
        if self.static_method {
            return Err(ClassificationError::TraitMethodStatic);
        }
        let is_fallible = match &self.return_type {
            Some(t) => matches!(t, JavaType::Fallible { .. }),
            None => false,
        };
        if !is_fallible {
            return Err(ClassificationError::TraitMethodNotFallible);
        }
        match self.find_env() {
            None => {
                return Err(ClassificationError::TraitMethodNeedsEnv);
            },
            Some(false) => {
                return Err(ClassificationError::TraitMethodEnvNotMutable);
            },
            Some(true) => {},
        }
        if self.mut_self {
            return Err(ClassificationError::TraitMethodMutableReceiver);
        }
        let ghost argviews = self@.args;
        let mut args_text = String::new();
        let mut vals: Vec<String> = Vec::new();
        let mut jargs: Vec<String> = Vec::new();
        let mut idx: usize = 0;
        let mut i: usize = 0;
        proof {
            assert(args_text@ =~= spec_trait_args_text(argviews.take(0)));
            assert(spec_trait_vals(argviews.take(0)) == Ok::<_, ClassificationErrorV>(
                Seq::<Seq<char>>::empty(),
            ));
            assert(spec_trait_jargs_pieces(argviews.take(0)) =~= Seq::<Seq<char>>::empty());
            assert(vals@.map_values(|p: String| p@) =~= Seq::<Seq<char>>::empty());
            assert(jargs@.map_values(|p: String| p@) =~= Seq::<Seq<char>>::empty());
        }
        while i < self.args.len()
            invariant
                0 <= i <= self.args.len(),
                idx == spec_nonself_count(argviews.take(i as int)),
                idx <= i,
                args_text@ == spec_trait_args_text(argviews.take(i as int)),
                spec_trait_vals(argviews.take(i as int)) == Ok::<_, ClassificationErrorV>(
                    vals@.map_values(|p: String| p@),
                ),
                spec_trait_jargs_pieces(argviews.take(i as int)) =~= jargs@.map_values(
                    |p: String| p@,
                ),
            decreases self.args.len() - i,
        {
            proof {
                assert(argviews.take(i + 1 as int).drop_last() =~= argviews.take(i as int));
                assert(argviews.take(i + 1 as int).last() == argviews[i as int]);
            }
            let arg = &self.args[i];
            if !arg.is_self() {
                let ghost old_args_text = args_text@;
                if arg.is_env() {
                    args_text.append("env: ");
                    args_text.append(arg.java_type.as_interface_arg().as_str());
                    args_text.append(", ");
                } else {
                    let iname = crate::text::usize_to_string(idx);
                    args_text.append("arg_");
                    args_text.append(iname.as_str());
                    args_text.append(": ");
                    args_text.append(arg.java_type.as_interface_arg().as_str());
                    args_text.append(", ");
                    let mut in_arg = String::from_str("arg_");
                    in_arg.append(iname.as_str());
                    let mut out_arg = String::from_str("j_arg_");
                    out_arg.append(iname.as_str());
                    match arg.as_interface_val(in_arg.as_str(), out_arg.as_str()) {
                        Err(e) => {
                            proof {
                                lemma_trait_vals_err(argviews, i + 1 as int);
                            }
                            return Err(e);
                        },
                        Ok(v) => {
                            vals.push(v);
                            proof {
                                assert(vals@.map_values(|p: String| p@) =~= spec_trait_vals(
                                    argviews.take(i + 1 as int),
                                )->Ok_0);
                            }
                        },
                    }
                    jargs.push(out_arg);
                    proof {
                        assert(jargs@.map_values(|p: String| p@) =~= spec_trait_jargs_pieces(
                            argviews.take(i + 1 as int),
                        ));
                    }
                }
                idx = idx + 1;
            }
            i = i + 1;
        }
        proof {
            assert(argviews.take(self.args@.len() as int) =~= argviews);
        }
        let mut decl_text = String::new();
        i = 0;
        proof {
            assert(spec_trait_decl_text(argviews.take(0)) == Ok::<_, ClassificationErrorV>(
                Seq::<char>::empty(),
            ));
            assert(decl_text@ =~= Seq::<char>::empty());
        }
        while i < self.args.len()
            invariant
                0 <= i <= self.args.len(),
                spec_trait_decl_text(argviews.take(i as int)) == Ok::<_, ClassificationErrorV>(
                    decl_text@,
                ),
            decreases self.args.len() - i,
        {
            proof {
                assert(argviews.take(i + 1 as int).drop_last() =~= argviews.take(i as int));
                assert(argviews.take(i + 1 as int).last() == argviews[i as int]);
            }
            let arg = &self.args[i];
            if !arg.is_self() && !arg.is_env() {
                match arg.java_type.as_jni_declaration() {
                    Err(e) => {
                        proof {
                            lemma_trait_decl_err(argviews, i + 1 as int);
                        }
                        return Err(e);
                    },
                    Ok(d) => {
                        decl_text.append(d.as_str());
                    },
                }
            }
            i = i + 1;
        }
        let ret_ty = match &self.return_type {
            Some(t) => t,
            None => {
                return Err(ClassificationError::TraitMethodNotFallible);
            },
        };
        let ret_desc = match ret_ty.as_jni_declaration() {
            Ok(d) => d,
            Err(e) => {
                return Err(e);
            },
        };
        let ret_val = match ret_ty.as_rust_return_val() {
            Ok(v) => v,
            Err(e) => {
                return Err(e);
            },
        };
        let rust_text = match ret_ty {
            JavaType::Fallible { rust_text, .. } => rust_text.clone(),
            _ => String::new(),
        };
        let mut s = String::from_str("fn ");
        s.append(self.name.as_str());
        s.append("(&self, ");
        s.append(args_text.as_str());
        s.append(") -> ");
        s.append(rust_text.as_str());
        s.append(" {\n");
        s.append(crate::text::join_all(&vals, "\n").as_str());
        s.append("\nlet res = env.call_method(&self.obj, \"");
        s.append(crate::casing::to_camel_case(self.name.as_str()).as_str());
        s.append("\", \"(");
        s.append(decl_text.as_str());
        s.append(")");
        s.append(ret_desc.as_str());
        s.append("\", &[");
        s.append(crate::text::join_all(&jargs, ", ").as_str());
        s.append("])?;\n");
        s.append(ret_val.as_str());
        s.append("\n}");
        proof {
            assert(s@ =~= spec_as_trait_method(self@)->Ok_0);
        }
        Ok(s)
    }
}

/// The classification of a parameter list, in order, first failure first.
pub open spec fn spec_classify_params(ps: Seq<crate::signature::ParamV>) -> Result<
    Seq<JavaArgV>,
    ClassificationErrorV,
>
    decreases ps.len(),
{
    if ps.len() == 0 {
        Ok(Seq::empty())
    } else {
        match spec_classify_params(ps.drop_last()) {
            Err(e) => Err(e),
            Ok(rest) => match crate::type_expr::spec_classify(
                ps.last().ty,
                ps.last().class_name_attr,
            ) {
                Ok(t) => Ok(rest.push(JavaArgV { name: ps.last().name, java_type: t })),
                Err(e) => Err(e),
            },
        }
    }
}

proof fn lemma_classify_params_err(ps: Seq<crate::signature::ParamV>, j: int)
    requires
        0 <= j <= ps.len(),
        spec_classify_params(ps.take(j)) is Err,
    ensures
        spec_classify_params(ps) == spec_classify_params(ps.take(j)),
    decreases ps.len() - j,
{
    if j == ps.len() {
        assert(ps.take(j) =~= ps);
    } else {
        assert(ps.take(j + 1).drop_last() =~= ps.take(j));
        lemma_classify_params_err(ps, j + 1);
    }
}

/// The model built from a parsed signature: parameters classified in order,
/// then the return type, then the receiver checked to be a reference; the
/// host-visible name honours a rename.
pub open spec fn spec_from_sig(s: crate::signature::FnSigV) -> Result<
    JavaMethodV,
    ClassificationErrorV,
> {
    match spec_classify_params(s.params) {
        Err(e) => Err(e),
        Ok(args) => {
            let retres = match s.output {
                Some(e) => match crate::type_expr::spec_classify(e, None) {
                    Ok(t) => Ok(Some(t)),
                    Err(er) => Err(er),
                },
                None => Ok(None),
            };
            match retres {
                Err(e) => Err(e),
                Ok(ret) => match s.receiver {
                    Some(crate::signature::Receiver::ByValue) => Err(
                        ClassificationErrorV::ReceiverNotReference,
                    ),
                    rcv => Ok(
                        JavaMethodV {
                            name: match s.rename {
                                Some(n) => n,
                                None => s.ident,
                            },
                            original_name: s.ident,
                            args,
                            return_type: ret,
                            static_method: rcv is None,
                            mut_self: match rcv {
                                Some(crate::signature::Receiver::ByRef { mutable }) => mutable,
                                _ => false,
                            },
                            doc_lines: s.doc_lines,
                        },
                    ),
                },
            }
        },
    }
}

impl JavaMethod {
    /// Builds the method model from a parsed signature.
    #[verifier::loop_isolation(false)]
    pub fn from_sig(sig: &crate::signature::FnSig) -> (r: Result<JavaMethod, ClassificationError>)
        ensures
            r matches Ok(m) ==> spec_from_sig(sig@) matches Ok(mv) && m@ == mv,
            r matches Err(e) ==> spec_from_sig(sig@) matches Err(ev) && e@ == ev,
    {
        let ghost pviews = sig@.params;
        let mut args: Vec<JavaArg> = Vec::new();
        let mut i: usize = 0;
        proof {
            assert(spec_classify_params(pviews.take(0)) == Ok::<_, ClassificationErrorV>(
                Seq::<JavaArgV>::empty(),
            ));
            assert(args@.map_values(|a: JavaArg| a@) =~= Seq::<JavaArgV>::empty());
        }
        while i < sig.params.len()
            invariant
                0 <= i <= sig.params.len(),
                spec_classify_params(pviews.take(i as int)) == Ok::<_, ClassificationErrorV>(
                    args@.map_values(|a: JavaArg| a@),
                ),
            decreases sig.params.len() - i,
        {
            proof {
                assert(pviews.take(i + 1 as int).drop_last() =~= pviews.take(i as int));
                assert(pviews.take(i + 1 as int).last() == pviews[i as int]);
            }
            let p = &sig.params[i];
            match crate::type_expr::classify(&p.ty, p.class_name_attr.as_ref()) {
                Err(e) => {
                    proof {
                        lemma_classify_params_err(pviews, i + 1 as int);
                    }
                    return Err(e);
                },
                Ok(t) => {
                    args.push(JavaArg { name: p.name.clone(), java_type: t });
                    proof {
                        assert(args@.map_values(|a: JavaArg| a@) =~= spec_classify_params(
                            pviews.take(i + 1 as int),
                        )->Ok_0);
                    }
                },
            }
            i = i + 1;
        }
        proof {
            assert(pviews.take(sig.params@.len() as int) =~= pviews);
        }
        let return_type: Option<JavaType> = match &sig.output {
            Some(e) => match crate::type_expr::classify(e, None) {
                Ok(t) => Some(t),
                Err(er) => {
                    return Err(er);
                },
            },
            None => None,
        };
        let (static_method, mut_self): (bool, bool) = match sig.receiver {
            Some(crate::signature::Receiver::ByValue) => {
                return Err(ClassificationError::ReceiverNotReference);
            },
            Some(crate::signature::Receiver::ByRef { mutable }) => (false, mutable),
            None => (true, false),
        };
        let name = match &sig.rename {
            Some(n) => n.clone(),
            None => sig.ident.clone(),
        };
        let m = JavaMethod {
            name,
            original_name: sig.ident.clone(),
            args,
            return_type,
            static_method,
            mut_self,
            doc_lines: sig.doc_lines.clone(),
        };
        proof {
            assert(m@.doc_lines =~= sig@.doc_lines);
            assert(m@ == spec_from_sig(sig@)->Ok_0);
        }
        Ok(m)
    }
}

/// The declaration of one method inside a generated Java interface.
pub open spec fn spec_as_interface_declaration(m: JavaMethodV) -> Seq<char> {
    let ret_decl = match m.return_type {
        Some(t) => match crate::java_type::spec_java_decl(t) {
            Some(d) => d,
            None => "void"@,
        },
        None => "void"@,
    };
    "\t"@ + spec_comment_or_empty(m.doc_lines) + ret_decl + " "@ + crate::casing::camel_of(m.name)
        + "("@ + crate::text::join_seq(spec_args_pieces(m.args), ", "@) + ")"@ + spec_throws(
        m.return_type,
    ) + ";"@
}

impl JavaMethod {
    /// Emits this method's declaration inside a generated Java interface.
    pub fn as_interface_declaration(&self) -> (r: String)
        ensures
            r@ == spec_as_interface_declaration(self@),
    {
        let ret_decl = match &self.return_type {
            Some(t) => match t.as_declaration() {
                Some(d) => d,
                None => String::from_str("void"),
            },
            None => String::from_str("void"),
        };
        let mut s = String::from_str("\t");
        s.append(self.comment_or_empty().as_str());
        s.append(ret_decl.as_str());
        s.append(" ");
        s.append(crate::casing::to_camel_case(self.name.as_str()).as_str());
        s.append("(");
        s.append(self.get_args().as_str());
        s.append(")");
        s.append(self.throws_or_empty().as_str());
        s.append(";");
        proof {
            assert(s@ =~= spec_as_interface_declaration(self@));
        }
        s
    }
}

} // verus!
