//! The closed set of bridgeable type categories, together with the encoders
//! that both generators share: the Java-side declaration text, the JNI
//! descriptor token, the native return type of a bridge function, and the
//! sentinel value a bridge returns after raising an exception.
use vstd::prelude::*;

verus! {

use vstd::string::StringExecFns;
use crate::errors::{ClassificationError, ClassificationErrorV};

/// A bridgeable type category. `Fallible` and the container variants carry
/// the rendered Rust type text of what they wrap, so that the bridge
/// generator can name the native types in its output.
#[derive(Debug)]
pub enum JavaType {
    /// An owned string, marshaled by decoding and encoding.
    Text,
    /// The receiver pseudo-type; as a return type it is the freshly boxed
    /// handle a constructor yields.
    This,
    /// No value.
    Void,
    Integer,
    Long,
    Boolean,
    Float,
    Double,
    Short,
    Char,
    Byte,
    /// The ambient JNI environment parameter; never marshaled as a value.
    Env { mutable: bool },
    /// An operation that may fail; carries the rendered Rust result type.
    Fallible { inner: Box<JavaType>, rust_text: String },
    /// A host-nullable wrapper around one value type.
    Optional { inner: Box<JavaType> },
    /// A borrowed reference to a previously boxed native value.
    Reference { target: String },
    /// An opaque Java object passed through unexamined.
    Object,
    /// A list; carries the rendered Rust element type.
    ListOf { elem: Box<JavaType>, elem_rust: String },
    /// A map; carries the rendered Rust key and value types.
    MapOf { key: Box<JavaType>, value: Box<JavaType>, key_rust: String, value_rust: String },
    /// A host-implemented callback object satisfying a native trait; carries
    /// the rendered trait object text and the Java class name.
    Interface { rust_path: String, class_name: String },
}

/// The mathematical shape of a `JavaType`, with text as character sequences.
pub enum JavaTypeV {
    Text,
    This,
    Void,
    Integer,
    Long,
    Boolean,
    Float,
    Double,
    Short,
    Char,
    Byte,
    Env { mutable: bool },
    Fallible { inner: Box<JavaTypeV>, rust_text: Seq<char> },
    Optional { inner: Box<JavaTypeV> },
    Reference { target: Seq<char> },
    Object,
    ListOf { elem: Box<JavaTypeV>, elem_rust: Seq<char> },
    MapOf { key: Box<JavaTypeV>, value: Box<JavaTypeV>, key_rust: Seq<char>, value_rust: Seq<char> },
    Interface { rust_path: Seq<char>, class_name: Seq<char> },
}

pub open spec fn jt_view(t: JavaType) -> JavaTypeV
    decreases t,
{
    match t {
        JavaType::Text => JavaTypeV::Text,
        JavaType::This => JavaTypeV::This,
        JavaType::Void => JavaTypeV::Void,
        JavaType::Integer => JavaTypeV::Integer,
        JavaType::Long => JavaTypeV::Long,
        JavaType::Boolean => JavaTypeV::Boolean,
        JavaType::Float => JavaTypeV::Float,
        JavaType::Double => JavaTypeV::Double,
        JavaType::Short => JavaTypeV::Short,
        JavaType::Char => JavaTypeV::Char,
        JavaType::Byte => JavaTypeV::Byte,
        JavaType::Env { mutable } => JavaTypeV::Env { mutable },
        JavaType::Fallible { inner, rust_text } => JavaTypeV::Fallible {
            inner: Box::new(jt_view(*inner)),
            rust_text: rust_text@,
        },
        JavaType::Optional { inner } => JavaTypeV::Optional { inner: Box::new(jt_view(*inner)) },
        JavaType::Reference { target } => JavaTypeV::Reference { target: target@ },
        JavaType::Object => JavaTypeV::Object,
        JavaType::ListOf { elem, elem_rust } => JavaTypeV::ListOf {
            elem: Box::new(jt_view(*elem)),
            elem_rust: elem_rust@,
        },
        JavaType::MapOf { key, value, key_rust, value_rust } => JavaTypeV::MapOf {
            key: Box::new(jt_view(*key)),
            value: Box::new(jt_view(*value)),
            key_rust: key_rust@,
            value_rust: value_rust@,
        },
        JavaType::Interface { rust_path, class_name } => JavaTypeV::Interface {
            rust_path: rust_path@,
            class_name: class_name@,
        },
    }
}

impl View for JavaType {
    type V = JavaTypeV;

    open spec fn view(&self) -> JavaTypeV {
        jt_view(*self)
    }
}

/// The fixed-width primitive categories.
pub open spec fn is_primitive(t: JavaTypeV) -> bool {
    ||| t is Integer
    ||| t is Long
    ||| t is Boolean
    ||| t is Float
    ||| t is Double
    ||| t is Short
    ||| t is Char
    ||| t is Byte
}

/// What an `Optional` may wrap: a primitive, text, an object reference, a
/// list or a map.
pub open spec fn optional_inner_ok(t: JavaTypeV) -> bool {
    ||| is_primitive(t)
    ||| t is Text
    ||| t is Reference
    ||| t is ListOf
    ||| t is MapOf
}

/// What a container may hold: anything that is a value on both sides.
pub open spec fn value_ok(t: JavaTypeV) -> bool {
    !(t is This) && !(t is Env) && !(t is Void) && !(t is Fallible)
}

/// Well-formedness: `Optional` wraps one value of its allow-list and never
/// nests; `Fallible` never wraps itself nor the environment; containers hold
/// values.
pub open spec fn wf_type(t: JavaTypeV) -> bool
    decreases t,
{
    match t {
        JavaTypeV::Fallible { inner, .. } => !(*inner is Fallible) && !(*inner is Env) && wf_type(
            *inner,
        ),
        JavaTypeV::Optional { inner } => optional_inner_ok(*inner) && wf_type(*inner),
        JavaTypeV::ListOf { elem, .. } => value_ok(*elem) && wf_type(*elem),
        JavaTypeV::MapOf { key, value, .. } => value_ok(*key) && wf_type(*key) && value_ok(*value)
            && wf_type(*value),
        _ => true,
    }
}

impl JavaType {
    /// The `throws` clause that a fallible operation adds to its Java
    /// declaration.
    pub fn throws(&self) -> (r: Option<String>)
        ensures
            r matches Some(s) ==> self@ is Fallible && s@ == " throws NativeExecutionException"@,
            r is None ==> !(self@ is Fallible),
    {
        if let JavaType::Fallible { .. } = self {
            Some(String::from_str(" throws NativeExecutionException"))
        } else {
            None
        }
    }

    /// Whether no value is returned; with `check_result`, a fallible
    /// operation with no payload counts as void too.
    pub fn is_void(&self, check_result: bool) -> (r: bool)
        ensures
            r == spec_is_void(self@, check_result),
        decreases *self,
    {
        match self {
            JavaType::Void => true,
            JavaType::Fallible { inner, .. } => check_result && inner.is_void(check_result),
            _ => false,
        }
    }

    /// The sentinel the bridge returns after raising an exception: null for
    /// object-shaped values, `0` for integers and handles, false for
    /// booleans, `0.0` for floats, nothing for void.
    pub fn error_return_val(&self) -> (r: Result<String, ClassificationError>)
        ensures
            r matches Ok(s) ==> spec_error_return_val(self@) matches Ok(v) && s@ == v,
            r matches Err(e) ==> spec_error_return_val(self@) matches Err(ev) && e@ == ev,
        decreases *self,
    {
        match self {
            JavaType::Text | JavaType::Optional { .. } | JavaType::Object | JavaType::ListOf {
                ..
            } | JavaType::MapOf { .. } => Ok(String::from_str("std::ptr::null_mut()")),
            JavaType::This | JavaType::Integer | JavaType::Long | JavaType::Short | JavaType::Char
                | JavaType::Byte => Ok(String::from_str("0")),
            JavaType::Void => Ok(String::new()),
            JavaType::Boolean => Ok(String::from_str("jni::sys::JNI_FALSE")),
            JavaType::Float | JavaType::Double => Ok(String::from_str("0.0")),
            JavaType::Fallible { inner, .. } => inner.error_return_val(),
            JavaType::Env { .. } => Err(ClassificationError::EnvNotAType),
            JavaType::Reference { .. } => Err(ClassificationError::ReferenceReturned),
            JavaType::Interface { .. } => Err(ClassificationError::InterfaceReturned),
        }
    }

    /// The native type that the bridge function declares as its return type.
    pub fn as_jni_return_type(&self) -> (r: Result<String, ClassificationError>)
        ensures
            r matches Ok(s) ==> spec_jni_return_type(self@) matches Ok(v) && s@ == v,
            r matches Err(e) ==> spec_jni_return_type(self@) matches Err(ev) && e@ == ev,
        decreases *self,
    {
        match self {
            JavaType::Text => Ok(String::from_str("jni::sys::jstring")),
            JavaType::This => Ok(String::from_str("jni::sys::jlong")),
            JavaType::Void => Ok(String::from_str("()")),
            JavaType::Integer => Ok(String::from_str("jni::sys::jint")),
            JavaType::Long => Ok(String::from_str("jni::sys::jlong")),
            JavaType::Boolean => Ok(String::from_str("jni::sys::jboolean")),
            JavaType::Float => Ok(String::from_str("jni::sys::jfloat")),
            JavaType::Double => Ok(String::from_str("jni::sys::jdouble")),
            JavaType::Short => Ok(String::from_str("jni::sys::jshort")),
            JavaType::Char => Ok(String::from_str("jni::sys::jchar")),
            JavaType::Byte => Ok(String::from_str("jni::sys::jbyte")),
            JavaType::Optional { .. } | JavaType::Object | JavaType::ListOf { .. }
                | JavaType::MapOf { .. } => Ok(String::from_str("jni::sys::jobject")),
            JavaType::Fallible { inner, .. } => inner.as_jni_return_type(),
            JavaType::Env { .. } => Err(ClassificationError::EnvNotAType),
            JavaType::Reference { .. } => Err(ClassificationError::ReferenceReturned),
            JavaType::Interface { .. } => Err(ClassificationError::InterfaceReturned),
        }
    }
}

pub open spec fn spec_is_void(t: JavaTypeV, check_result: bool) -> bool
    decreases t,
{
    match t {
        JavaTypeV::Void => true,
        JavaTypeV::Fallible { inner, .. } => check_result && spec_is_void(*inner, check_result),
        _ => false,
    }
}

/// The designated error-return sentinel of each category; an error where a
/// value of the category cannot be returned at all.
pub open spec fn spec_error_return_val(t: JavaTypeV) -> Result<Seq<char>, ClassificationErrorV>
    decreases t,
{
    match t {
        JavaTypeV::Text | JavaTypeV::Optional { .. } | JavaTypeV::Object | JavaTypeV::ListOf {
            ..
        } | JavaTypeV::MapOf { .. } => Ok("std::ptr::null_mut()"@),
        JavaTypeV::This | JavaTypeV::Integer | JavaTypeV::Long | JavaTypeV::Short
            | JavaTypeV::Char | JavaTypeV::Byte => Ok("0"@),
        JavaTypeV::Void => Ok(Seq::empty()),
        JavaTypeV::Boolean => Ok("jni::sys::JNI_FALSE"@),
        JavaTypeV::Float | JavaTypeV::Double => Ok("0.0"@),
        JavaTypeV::Fallible { inner, .. } => spec_error_return_val(*inner),
        JavaTypeV::Env { .. } => Err(ClassificationErrorV::EnvNotAType),
        JavaTypeV::Reference { .. } => Err(ClassificationErrorV::ReferenceReturned),
        JavaTypeV::Interface { .. } => Err(ClassificationErrorV::InterfaceReturned),
    }
}

/// The Java-side declaration text of a category; `None` where the category
/// is invisible in a Java signature.
pub open spec fn spec_java_decl(t: JavaTypeV) -> Option<Seq<char>>
    decreases t,
{
    match t {
        JavaTypeV::Text => Some("String"@),
        JavaTypeV::This => Some("long"@),
        JavaTypeV::Void => Some("void"@),
        JavaTypeV::Integer => Some("int"@),
        JavaTypeV::Long => Some("long"@),
        JavaTypeV::Boolean => Some("boolean"@),
        JavaTypeV::Float => Some("float"@),
        JavaTypeV::Double => Some("double"@),
        JavaTypeV::Short => Some("short"@),
        JavaTypeV::Char => Some("char"@),
        JavaTypeV::Byte => Some("byte"@),
        JavaTypeV::Optional { inner } => match *inner {
            JavaTypeV::Text => Some("String"@),
            JavaTypeV::Integer => Some("Integer"@),
            JavaTypeV::Long => Some("Long"@),
            JavaTypeV::Boolean => Some("Boolean"@),
            JavaTypeV::Float => Some("Float"@),
            JavaTypeV::Double => Some("Double"@),
            JavaTypeV::Short => Some("Short"@),
            JavaTypeV::Char => Some("Character"@),
            JavaTypeV::Byte => Some("Byte"@),
            JavaTypeV::Reference { target } => Some(target),
            JavaTypeV::ListOf { .. } => spec_java_decl(*inner),
            JavaTypeV::MapOf { .. } => spec_java_decl(*inner),
            _ => None,
        },
        JavaTypeV::Fallible { inner, .. } => spec_java_decl(*inner),
        JavaTypeV::Env { .. } => None,
        JavaTypeV::Reference { target } => Some(target),
        JavaTypeV::Object => Some("Object"@),
        JavaTypeV::ListOf { elem, .. } => match spec_java_decl(*elem) {
            Some(d) => Some("List<"@ + d + ">"@),
            None => None,
        },
        JavaTypeV::MapOf { key, value, .. } => match (spec_java_decl(*key), spec_java_decl(
            *value,
        )) {
            (Some(k), Some(v)) => Some("Map<"@ + k + ", "@ + v + ">"@),
            _ => None,
        },
        JavaTypeV::Interface { class_name, .. } => Some(class_name),
    }
}

pub open spec fn spec_jni_return_type(t: JavaTypeV) -> Result<Seq<char>, ClassificationErrorV>
    decreases t,
{
    match t {
        JavaTypeV::Text => Ok("jni::sys::jstring"@),
        JavaTypeV::This => Ok("jni::sys::jlong"@),
        JavaTypeV::Void => Ok("()"@),
        JavaTypeV::Integer => Ok("jni::sys::jint"@),
        JavaTypeV::Long => Ok("jni::sys::jlong"@),
        JavaTypeV::Boolean => Ok("jni::sys::jboolean"@),
        JavaTypeV::Float => Ok("jni::sys::jfloat"@),
        JavaTypeV::Double => Ok("jni::sys::jdouble"@),
        JavaTypeV::Short => Ok("jni::sys::jshort"@),
        JavaTypeV::Char => Ok("jni::sys::jchar"@),
        JavaTypeV::Byte => Ok("jni::sys::jbyte"@),
        JavaTypeV::Optional { .. } | JavaTypeV::Object | JavaTypeV::ListOf { .. }
            | JavaTypeV::MapOf { .. } => Ok("jni::sys::jobject"@),
        JavaTypeV::Fallible { inner, .. } => spec_jni_return_type(*inner),
        JavaTypeV::Env { .. } => Err(ClassificationErrorV::EnvNotAType),
        JavaTypeV::Reference { .. } => Err(ClassificationErrorV::ReferenceReturned),
        JavaTypeV::Interface { .. } => Err(ClassificationErrorV::InterfaceReturned),
    }
}

/// The JNI descriptor token of a category, as the host runtime's method
/// descriptor grammar spells it; `None` where the category has no
/// descriptor.
pub open spec fn spec_jni_descriptor(t: JavaTypeV) -> Result<Seq<char>, ClassificationErrorV>
    decreases t,
{
    match t {
        JavaTypeV::Text => Ok("Ljava/lang/String;"@),
        JavaTypeV::This => Err(ClassificationErrorV::SelfArgument),
        JavaTypeV::Void => Ok("V"@),
        JavaTypeV::Integer => Ok("I"@),
        JavaTypeV::Long => Ok("J"@),
        JavaTypeV::Boolean => Ok("Z"@),
        JavaTypeV::Float => Ok("F"@),
        JavaTypeV::Double => Ok("D"@),
        JavaTypeV::Short => Ok("S"@),
        JavaTypeV::Char => Ok("C"@),
        JavaTypeV::Byte => Ok("B"@),
        JavaTypeV::Env { .. } => Err(ClassificationErrorV::EnvNotAType),
        JavaTypeV::Fallible { inner, .. } => spec_jni_descriptor(*inner),
        JavaTypeV::Optional { inner } => match *inner {
            JavaTypeV::Text => Ok("Ljava/lang/String;"@),
            JavaTypeV::This => Err(ClassificationErrorV::SelfArgument),
            JavaTypeV::Void => Ok("V"@),
            JavaTypeV::Integer => Ok("Ljava/lang/Integer;"@),
            JavaTypeV::Long => Ok("Ljava/lang/Long;"@),
            JavaTypeV::Boolean => Ok("Ljava/lang/Boolean;"@),
            JavaTypeV::Float => Ok("Ljava/lang/Float;"@),
            JavaTypeV::Double => Ok("Ljava/lang/Double;"@),
            JavaTypeV::Short => Ok("Ljava/lang/Short;"@),
            JavaTypeV::Char => Ok("Ljava/lang/Character;"@),
            JavaTypeV::Byte => Ok("Ljava/lang/Byte;"@),
            JavaTypeV::Object => Ok("Ljava/lang/Object;"@),
            JavaTypeV::ListOf { .. } => Ok("Ljava/util/List;"@),
            JavaTypeV::MapOf { .. } => Ok("Ljava/util/Map;"@),
            JavaTypeV::Interface { class_name, .. } => Ok(
                "L"@ + crate::text::replace_char_seq(class_name, '.', '/') + ";"@,
            ),
            JavaTypeV::Env { .. } => Err(ClassificationErrorV::EnvNotAType),
            JavaTypeV::Optional { .. } => Err(ClassificationErrorV::NestedOptional),
            JavaTypeV::Fallible { .. } => Err(ClassificationErrorV::FallibleArgument),
            JavaTypeV::Reference { .. } => Err(ClassificationErrorV::ReferencePassed),
        },
        JavaTypeV::Reference { .. } => Err(ClassificationErrorV::ReferencePassed),
        JavaTypeV::Object => Ok("Ljava/lang/Object;"@),
        JavaTypeV::ListOf { .. } => Ok("Ljava/util/List;"@),
        JavaTypeV::MapOf { .. } => Ok("Ljava/util/Map;"@),
        JavaTypeV::Interface { class_name, .. } => Ok(
            "L"@ + crate::text::replace_char_seq(class_name, '.', '/') + ";"@,
        ),
    }
}

/// The Rust-side argument type that a trait method of a callback interface
/// declares for a value of this category.
pub open spec fn spec_interface_arg(t: JavaTypeV) -> Seq<char>
    decreases t,
{
    match t {
        JavaTypeV::Text => "String"@,
        JavaTypeV::This => "&self"@,
        JavaTypeV::Void => "()"@,
        JavaTypeV::Integer => "i32"@,
        JavaTypeV::Long => "i64"@,
        JavaTypeV::Boolean => "bool"@,
        JavaTypeV::Float => "f32"@,
        JavaTypeV::Double => "f64"@,
        JavaTypeV::Short => "i16"@,
        JavaTypeV::Char => "u16"@,
        JavaTypeV::Byte => "i8"@,
        JavaTypeV::Env { .. } => "&mut jni::JNIEnv"@,
        JavaTypeV::Fallible { rust_text, .. } => rust_text,
        JavaTypeV::Optional { inner } => "Option<"@ + spec_interface_arg(*inner) + ">"@,
        JavaTypeV::Reference { target } => "&"@ + target,
        JavaTypeV::Object => "jni::objects::JObject"@,
        JavaTypeV::ListOf { elem, .. } => "Vec<"@ + spec_interface_arg(*elem) + ">"@,
        JavaTypeV::MapOf { key, value, .. } => "HashMap<"@ + spec_interface_arg(*key) + ", "@
            + spec_interface_arg(*value) + ">"@,
        JavaTypeV::Interface { rust_path, .. } => "Box<"@ + rust_path + ">"@,
    }
}

/// `acc` with `x` appended unless already present.
pub open spec fn add_unique(acc: Seq<Seq<char>>, x: Seq<char>) -> Seq<Seq<char>> {
    if acc.contains(x) {
        acc
    } else {
        acc.push(x)
    }
}

/// The Java imports a category needs, folded onto an accumulator without
/// duplicates: `java.util.List` for lists, `java.util.Map` for maps, the
/// generated exception for fallible operations.
pub open spec fn spec_imports_acc(t: JavaTypeV, acc: Seq<Seq<char>>) -> Seq<Seq<char>>
    decreases t,
{
    match t {
        JavaTypeV::ListOf { elem, .. } => spec_imports_acc(*elem, add_unique(acc, "java.util.List"@)),
        JavaTypeV::MapOf { key, value, .. } => spec_imports_acc(
            *value,
            spec_imports_acc(*key, add_unique(acc, "java.util.Map"@)),
        ),
        JavaTypeV::Optional { inner } => spec_imports_acc(*inner, acc),
        JavaTypeV::Fallible { inner, .. } => spec_imports_acc(
            *inner,
            add_unique(acc, "com.github.markusjx.jnibindgen.NativeExecutionException"@),
        ),
        _ => acc,
    }
}

impl JavaType {
    /// The Java type name that the declaration emitter writes for this
    /// category; `None` where it is elided from the Java signature.
    pub fn as_declaration(&self) -> (r: Option<String>)
        ensures
            r matches Some(s) ==> spec_java_decl(self@) matches Some(v) && s@ == v,
            r is None ==> spec_java_decl(self@) is None,
        decreases *self,
    {
        proof {
            reveal_with_fuel(jt_view, 2);
        }
        match self {
            JavaType::Text => Some(String::from_str("String")),
            JavaType::This => Some(String::from_str("long")),
            JavaType::Void => Some(String::from_str("void")),
            JavaType::Integer => Some(String::from_str("int")),
            JavaType::Long => Some(String::from_str("long")),
            JavaType::Boolean => Some(String::from_str("boolean")),
            JavaType::Float => Some(String::from_str("float")),
            JavaType::Double => Some(String::from_str("double")),
            JavaType::Short => Some(String::from_str("short")),
            JavaType::Char => Some(String::from_str("char")),
            JavaType::Byte => Some(String::from_str("byte")),
            JavaType::Optional { inner } => match &**inner {
                JavaType::Text => Some(String::from_str("String")),
                JavaType::Integer => Some(String::from_str("Integer")),
                JavaType::Long => Some(String::from_str("Long")),
                JavaType::Boolean => Some(String::from_str("Boolean")),
                JavaType::Float => Some(String::from_str("Float")),
                JavaType::Double => Some(String::from_str("Double")),
                JavaType::Short => Some(String::from_str("Short")),
                JavaType::Char => Some(String::from_str("Character")),
                JavaType::Byte => Some(String::from_str("Byte")),
                JavaType::Reference { target } => Some(target.clone()),
                JavaType::ListOf { .. } | JavaType::MapOf { .. } => inner.as_declaration(),
                _ => None,
            },
            JavaType::Fallible { inner, .. } => inner.as_declaration(),
            JavaType::Env { .. } => None,
            JavaType::Reference { target } => Some(target.clone()),
            JavaType::Object => Some(String::from_str("Object")),
            JavaType::ListOf { elem, .. } => match elem.as_declaration() {
                Some(d) => {
                    let mut s = String::from_str("List<");
                    s.append(d.as_str());
                    s.append(">");
                    Some(s)
                },
                None => None,
            },
            JavaType::MapOf { key, value, .. } => match (key.as_declaration(),
            value.as_declaration()) {
                (Some(k), Some(v)) => {
                    let mut s = String::from_str("Map<");
                    s.append(k.as_str());
                    s.append(", ");
                    s.append(v.as_str());
                    s.append(">");
                    Some(s)
                },
                _ => None,
            },
            JavaType::Interface { class_name, .. } => Some(class_name.clone()),
        }
    }

    /// The JNI descriptor token of this category, used both in declared
    /// native method shapes and in reflective calls back into Java.
    pub fn as_jni_declaration(&self) -> (r: Result<String, ClassificationError>)
        ensures
            r matches Ok(s) ==> spec_jni_descriptor(self@) matches Ok(v) && s@ == v,
            r matches Err(e) ==> spec_jni_descriptor(self@) matches Err(ev) && e@ == ev,
        decreases *self,
    {
        proof {
            reveal_with_fuel(jt_view, 2);
        }
        match self {
            JavaType::Text => Ok(String::from_str("Ljava/lang/String;")),
            JavaType::This => Err(ClassificationError::SelfArgument),
            JavaType::Void => Ok(String::from_str("V")),
            JavaType::Integer => Ok(String::from_str("I")),
            JavaType::Long => Ok(String::from_str("J")),
            JavaType::Boolean => Ok(String::from_str("Z")),
            JavaType::Float => Ok(String::from_str("F")),
            JavaType::Double => Ok(String::from_str("D")),
            JavaType::Short => Ok(String::from_str("S")),
            JavaType::Char => Ok(String::from_str("C")),
            JavaType::Byte => Ok(String::from_str("B")),
            JavaType::Env { .. } => Err(ClassificationError::EnvNotAType),
            JavaType::Fallible { inner, .. } => inner.as_jni_declaration(),
            JavaType::Optional { inner } => match &**inner {
                JavaType::Text => Ok(String::from_str("Ljava/lang/String;")),
                JavaType::This => Err(ClassificationError::SelfArgument),
                JavaType::Void => Ok(String::from_str("V")),
                JavaType::Integer => Ok(String::from_str("Ljava/lang/Integer;")),
                JavaType::Long => Ok(String::from_str("Ljava/lang/Long;")),
                JavaType::Boolean => Ok(String::from_str("Ljava/lang/Boolean;")),
                JavaType::Float => Ok(String::from_str("Ljava/lang/Float;")),
                JavaType::Double => Ok(String::from_str("Ljava/lang/Double;")),
                JavaType::Short => Ok(String::from_str("Ljava/lang/Short;")),
                JavaType::Char => Ok(String::from_str("Ljava/lang/Character;")),
                JavaType::Byte => Ok(String::from_str("Ljava/lang/Byte;")),
                JavaType::Object => Ok(String::from_str("Ljava/lang/Object;")),
                JavaType::ListOf { .. } => Ok(String::from_str("Ljava/util/List;")),
                JavaType::MapOf { .. } => Ok(String::from_str("Ljava/util/Map;")),
                JavaType::Interface { class_name, .. } => {
                    let mut s = String::from_str("L");
                    s.append(crate::text::replace_char(class_name.as_str(), '.', '/').as_str());
                    s.append(";");
                    Ok(s)
                },
                JavaType::Env { .. } => Err(ClassificationError::EnvNotAType),
                JavaType::Optional { .. } => Err(ClassificationError::NestedOptional),
                JavaType::Reference { .. } => Err(ClassificationError::ReferencePassed),
                JavaType::Fallible { .. } => Err(ClassificationError::FallibleArgument),
            },
            JavaType::Reference { .. } => Err(ClassificationError::ReferencePassed),
            JavaType::Object => Ok(String::from_str("Ljava/lang/Object;")),
            JavaType::ListOf { .. } => Ok(String::from_str("Ljava/util/List;")),
            JavaType::MapOf { .. } => Ok(String::from_str("Ljava/util/Map;")),
            JavaType::Interface { class_name, .. } => {
                let mut s = String::from_str("L");
                s.append(crate::text::replace_char(class_name.as_str(), '.', '/').as_str());
                s.append(";");
                Ok(s)
            },
        }
    }

    /// The Rust argument type written into a callback trait implementation.
    pub fn as_interface_arg(&self) -> (r: String)
        ensures
            r@ == spec_interface_arg(self@),
        decreases *self,
    {
        match self {
            JavaType::Text => String::from_str("String"),
            JavaType::This => String::from_str("&self"),
            JavaType::Void => String::from_str("()"),
            JavaType::Integer => String::from_str("i32"),
            JavaType::Long => String::from_str("i64"),
            JavaType::Boolean => String::from_str("bool"),
            JavaType::Float => String::from_str("f32"),
            JavaType::Double => String::from_str("f64"),
            JavaType::Short => String::from_str("i16"),
            JavaType::Char => String::from_str("u16"),
            JavaType::Byte => String::from_str("i8"),
            JavaType::Env { .. } => String::from_str("&mut jni::JNIEnv"),
            JavaType::Fallible { rust_text, .. } => rust_text.clone(),
            JavaType::Optional { inner } => {
                let mut s = String::from_str("Option<");
                s.append(inner.as_interface_arg().as_str());
                s.append(">");
                s
            },
            JavaType::Reference { target } => {
                let mut s = String::from_str("&");
                s.append(target.as_str());
                s
            },
            JavaType::Object => String::from_str("jni::objects::JObject"),
            JavaType::ListOf { elem, .. } => {
                let mut s = String::from_str("Vec<");
                s.append(elem.as_interface_arg().as_str());
                s.append(">");
                s
            },
            JavaType::MapOf { key, value, .. } => {
                let mut s = String::from_str("HashMap<");
                s.append(key.as_interface_arg().as_str());
                s.append(", ");
                s.append(value.as_interface_arg().as_str());
                s.append(">");
                s
            },
            JavaType::Interface { rust_path, .. } => {
                let mut s = String::from_str("Box<");
                s.append(rust_path.as_str());
                s.append(">");
                s
            },
        }
    }

    /// Folds the imports this category needs onto `acc`, without duplicates.
    pub fn add_imports(&self, acc: &mut Vec<String>)
        ensures
            final(acc)@.map_values(|p: String| p@) == spec_imports_acc(
                self@,
                old(acc)@.map_values(|p: String| p@),
            ),
        decreases *self,
    {
        match self {
            JavaType::ListOf { elem, .. } => {
                if !crate::text::vec_contains_string(acc, "java.util.List") {
                    acc.push(String::from_str("java.util.List"));
                    proof {
                        assert(acc@.map_values(|p: String| p@) =~= old(acc)@.map_values(
                            |p: String| p@,
                        ).push("java.util.List"@));
                    }
                }
                elem.add_imports(acc);
            },
            JavaType::MapOf { key, value, .. } => {
                if !crate::text::vec_contains_string(acc, "java.util.Map") {
                    acc.push(String::from_str("java.util.Map"));
                    proof {
                        assert(acc@.map_values(|p: String| p@) =~= old(acc)@.map_values(
                            |p: String| p@,
                        ).push("java.util.Map"@));
                    }
                }
                key.add_imports(acc);
                value.add_imports(acc);
            },
            JavaType::Optional { inner } => {
                inner.add_imports(acc);
            },
            JavaType::Fallible { inner, .. } => {
                if !crate::text::vec_contains_string(
                    acc,
                    "com.github.markusjx.jnibindgen.NativeExecutionException",
                ) {
                    acc.push(
                        String::from_str("com.github.markusjx.jnibindgen.NativeExecutionException"),
                    );
                    proof {
                        assert(acc@.map_values(|p: String| p@) =~= old(acc)@.map_values(
                            |p: String| p@,
                        ).push("com.github.markusjx.jnibindgen.NativeExecutionException"@));
                    }
                }
                inner.add_imports(acc);
            },
            _ => {},
        }
    }

    /// The Java imports this category needs, deduplicated, in the order the
    /// category tree mentions them.
    pub fn get_imports(&self) -> (r: Vec<String>)
        ensures
            r@.map_values(|p: String| p@) == spec_imports_acc(self@, Seq::empty()),
    {
        let mut acc: Vec<String> = Vec::new();
        proof {
            assert(acc@.map_values(|p: String| p@) =~= Seq::<Seq<char>>::empty());
        }
        self.add_imports(&mut acc);
        acc
    }
}

} // verus!
