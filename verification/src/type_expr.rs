//! The native type expressions that the classifier reads: a path name with
//! its generic arguments, a reference, a boxed trait object, or unit —
//! together with `classify`, the recursive mapping onto `JavaType`.
use vstd::prelude::*;

verus! {

use vstd::string::StringExecFns;
use vstd::seq_lib::group_seq_properties;
use crate::errors::{ClassificationError, ClassificationErrorV};
use crate::java_type::{JavaType, JavaTypeV, optional_inner_ok, value_ok};
use crate::text::{str_eq, join_seq, join_all};

/// A parsed native type expression. Each shape carries the rendered Rust
/// text of the whole type, used in diagnostics and in the generated bridge
/// code.
#[derive(Debug)]
pub enum TypeExpr {
    /// A path type: the last segment's name, its first and last generic type
    /// arguments where present, and the rendered text.
    Named {
        name: String,
        first_arg: Option<Box<TypeExpr>>,
        last_arg: Option<Box<TypeExpr>>,
        text: String,
    },
    /// A reference `&T` or `&mut T`.
    Ref { mutable: bool, inner: Box<TypeExpr>, text: String },
    /// A trait object under a box: whether a trait bound was found, the
    /// path segments of that bound, whether a lifetime bound is present, and
    /// the rendered text of the trait path.
    TraitObj {
        has_trait_bound: bool,
        segments: Vec<String>,
        has_lifetime: bool,
        path_text: String,
    },
    /// The unit type `()`.
    Unit,
}

/// The mathematical shape of a `TypeExpr`.
pub enum TypeExprV {
    Named {
        name: Seq<char>,
        first_arg: Option<Box<TypeExprV>>,
        last_arg: Option<Box<TypeExprV>>,
        text: Seq<char>,
    },
    Ref { mutable: bool, inner: Box<TypeExprV>, text: Seq<char> },
    TraitObj {
        has_trait_bound: bool,
        segments: Seq<Seq<char>>,
        has_lifetime: bool,
        path_text: Seq<char>,
    },
    Unit,
}

pub open spec fn te_view(e: TypeExpr) -> TypeExprV
    decreases e,
{
    match e {
        TypeExpr::Named { name, first_arg, last_arg, text } => TypeExprV::Named {
            name: name@,
            first_arg: match first_arg {
                Some(a) => Some(Box::new(te_view(*a))),
                None => None,
            },
            last_arg: match last_arg {
                Some(a) => Some(Box::new(te_view(*a))),
                None => None,
            },
            text: text@,
        },
        TypeExpr::Ref { mutable, inner, text } => TypeExprV::Ref {
            mutable,
            inner: Box::new(te_view(*inner)),
            text: text@,
        },
        TypeExpr::TraitObj { has_trait_bound, segments, has_lifetime, path_text } => (
        TypeExprV::TraitObj {
            has_trait_bound,
            segments: segments@.map_values(|s: String| s@),
            has_lifetime,
            path_text: path_text@,
        }),
        TypeExpr::Unit => TypeExprV::Unit,
    }
}

impl View for TypeExpr {
    type V = TypeExprV;

    open spec fn view(&self) -> TypeExprV {
        te_view(*self)
    }
}

/// The rendered text of a type expression, for diagnostics.
pub open spec fn spec_te_text(e: TypeExprV) -> Seq<char> {
    match e {
        TypeExprV::Named { text, .. } => text,
        TypeExprV::Ref { text, .. } => text,
        TypeExprV::TraitObj { path_text, .. } => path_text,
        TypeExprV::Unit => "()"@,
    }
}

/// The view of an optional class-name attribute.
pub open spec fn spec_attr(a: Option<&String>) -> Option<Seq<char>> {
    match a {
        Some(s) => Some(s@),
        None => None,
    }
}

/// The Java class name derived from a trait path: its segments except
/// `crate`, joined with dots.
pub open spec fn spec_derived_class_name(segments: Seq<Seq<char>>) -> Seq<char> {
    join_seq(segments.filter(|s: Seq<char>| s != "crate"@), "."@)
}

/// The recursive classification of a native type expression into a
/// bridgeable category, or the precise diagnostic on which it is rejected.
pub open spec fn spec_classify(e: TypeExprV, attr: Option<Seq<char>>) -> Result<
    JavaTypeV,
    ClassificationErrorV,
>
    decreases e,
{
    match e {
        TypeExprV::Unit => Ok(JavaTypeV::Void),
        TypeExprV::TraitObj { path_text, .. } => Err(
            ClassificationErrorV::UnsupportedType(path_text),
        ),
        TypeExprV::Ref { mutable, inner, text } => match *inner {
            TypeExprV::Named { name, text: itext, .. } => {
                if name == "JNIEnv"@ {
                    Ok(JavaTypeV::Env { mutable })
                } else if mutable {
                    Err(ClassificationErrorV::MutableReference)
                } else {
                    Ok(JavaTypeV::Reference { target: itext })
                }
            },
            _ => Err(ClassificationErrorV::UnsupportedType(text)),
        },
        TypeExprV::Named { name, first_arg, last_arg, text } => {
            if name == "String"@ {
                Ok(JavaTypeV::Text)
            } else if name == "Self"@ {
                Ok(JavaTypeV::This)
            } else if name == "i32"@ {
                Ok(JavaTypeV::Integer)
            } else if name == "i64"@ {
                Ok(JavaTypeV::Long)
            } else if name == "bool"@ {
                Ok(JavaTypeV::Boolean)
            } else if name == "f32"@ {
                Ok(JavaTypeV::Float)
            } else if name == "f64"@ {
                Ok(JavaTypeV::Double)
            } else if name == "i16"@ {
                Ok(JavaTypeV::Short)
            } else if name == "u16"@ {
                Ok(JavaTypeV::Char)
            } else if name == "i8"@ {
                Ok(JavaTypeV::Byte)
            } else if name == "JObject"@ {
                Ok(JavaTypeV::Object)
            } else if name == "Result"@ && first_arg is Some {
                match spec_classify(*first_arg->0, None) {
                    Ok(i) => {
                        if i is Fallible {
                            Err(ClassificationErrorV::NestedFallible)
                        } else if i is Env {
                            Err(ClassificationErrorV::EnvNotAType)
                        } else {
                            Ok(JavaTypeV::Fallible { inner: Box::new(i), rust_text: text })
                        }
                    },
                    Err(er) => Err(er),
                }
            } else if name == "Option"@ && first_arg is Some {
                match spec_classify(*first_arg->0, None) {
                    Ok(i) => {
                        if i is Optional {
                            Err(ClassificationErrorV::NestedOptional)
                        } else if !optional_inner_ok(i) {
                            Err(ClassificationErrorV::UnsupportedOptional)
                        } else {
                            Ok(JavaTypeV::Optional { inner: Box::new(i) })
                        }
                    },
                    Err(er) => Err(er),
                }
            } else if name == "Vec"@ && first_arg is Some {
                match spec_classify(*first_arg->0, None) {
                    Ok(i) => {
                        if i is This {
                            Err(ClassificationErrorV::NestedReceiver)
                        } else if !value_ok(i) {
                            Err(
                                ClassificationErrorV::UnsupportedType(
                                    spec_te_text(*first_arg->0),
                                ),
                            )
                        } else {
                            Ok(
                                JavaTypeV::ListOf {
                                    elem: Box::new(i),
                                    elem_rust: spec_te_text(*first_arg->0),
                                },
                            )
                        }
                    },
                    Err(er) => Err(er),
                }
            } else if name == "HashMap"@ && first_arg is Some && last_arg is Some {
                match spec_classify(*first_arg->0, None) {
                    Ok(k) => match spec_classify(*last_arg->0, None) {
                        Ok(v) => {
                            if k is This || v is This {
                                Err(ClassificationErrorV::NestedReceiver)
                            } else if !value_ok(k) {
                                Err(
                                    ClassificationErrorV::UnsupportedType(
                                        spec_te_text(*first_arg->0),
                                    ),
                                )
                            } else if !value_ok(v) {
                                Err(
                                    ClassificationErrorV::UnsupportedType(
                                        spec_te_text(*last_arg->0),
                                    ),
                                )
                            } else {
                                Ok(
                                    JavaTypeV::MapOf {
                                        key: Box::new(k),
                                        value: Box::new(v),
                                        key_rust: spec_te_text(*first_arg->0),
                                        value_rust: spec_te_text(*last_arg->0),
                                    },
                                )
                            }
                        },
                        Err(er) => Err(er),
                    },
                    Err(er) => Err(er),
                }
            } else if name == "Box"@ && first_arg is Some {
                match *first_arg->0 {
                    TypeExprV::TraitObj { has_trait_bound, segments, has_lifetime, path_text } => {
                        if !has_lifetime {
                            Err(ClassificationErrorV::BoxWithoutLifetime)
                        } else {
                            let derived = if has_trait_bound {
                                Some(spec_derived_class_name(segments))
                            } else {
                                None
                            };
                            let cls = if attr is Some {
                                attr
                            } else {
                                derived
                            };
                            match cls {
                                Some(c) => Ok(
                                    JavaTypeV::Interface {
                                        rust_path: "dyn "@ + path_text + " + 'local"@,
                                        class_name: c,
                                    },
                                ),
                                None => Err(ClassificationErrorV::MissingClassName),
                            }
                        }
                    },
                    _ => Err(ClassificationErrorV::BoxWithoutTrait),
                }
            } else {
                Err(ClassificationErrorV::UnsupportedType(text))
            }
        },
    }
}

impl TypeExpr {
    /// The rendered text of this expression, for diagnostics.
    pub fn text_of(&self) -> (r: String)
        ensures
            r@ == spec_te_text(self@),
    {
        match self {
            TypeExpr::Named { text, .. } => text.clone(),
            TypeExpr::Ref { text, .. } => text.clone(),
            TypeExpr::TraitObj { path_text, .. } => path_text.clone(),
            TypeExpr::Unit => String::from_str("()"),
        }
    }
}

/// The segments that make it into a derived class name.
pub open spec fn filter_crate(s: Seq<Seq<char>>) -> Seq<Seq<char>> {
    s.filter(|x: Seq<char>| x != "crate"@)
}

/// Joins the trait path segments except `crate` with dots.
fn derived_class_name(segments: &Vec<String>) -> (r: String)
    ensures
        r@ == spec_derived_class_name(segments@.map_values(|s: String| s@)),
{
    broadcast use group_seq_properties;

    let ghost views = segments@.map_values(|s: String| s@);
    let mut kept: Vec<String> = Vec::new();
    let mut i: usize = 0;
    proof {
        reveal(Seq::filter);
        assert(kept@.map_values(|s: String| s@) =~= filter_crate(views.take(0)));
    }
    while i < segments.len()
        invariant
            0 <= i <= segments.len(),
            views == segments@.map_values(|s: String| s@),
            views.len() == segments@.len(),
            kept@.map_values(|s: String| s@) =~= filter_crate(views.take(i as int)),
        decreases segments.len() - i,
    {
        proof {
            reveal(Seq::filter);
            assert(views.take(i + 1 as int).drop_last() =~= views.take(i as int));
            assert(views.take(i + 1 as int).last() == views[i as int]);
        }
        if !str_eq(segments[i].as_str(), "crate") {
            kept.push(segments[i].clone());
        }
        proof {
            assert(kept@.map_values(|s: String| s@) =~= filter_crate(views.take(i + 1 as int)));
        }
        i = i + 1;
    }
    proof {
        assert(views.take(views.len() as int) =~= views);
        assert(spec_derived_class_name(views) == join_seq(filter_crate(views), "."@));
    }
    join_all(&kept, ".")
}

fn optional_inner_ok_exec(t: &JavaType) -> (r: bool)
    ensures
        r == optional_inner_ok(t@),
{
    match t {
        JavaType::Integer | JavaType::Long | JavaType::Boolean | JavaType::Float
            | JavaType::Double | JavaType::Short | JavaType::Char | JavaType::Byte
            | JavaType::Text | JavaType::Reference { .. } | JavaType::ListOf { .. }
            | JavaType::MapOf { .. } => true,
        _ => false,
    }
}

fn value_ok_exec(t: &JavaType) -> (r: bool)
    ensures
        r == value_ok(t@),
{
    match t {
        JavaType::This | JavaType::Env { .. } | JavaType::Void | JavaType::Fallible { .. } => false,
        _ => true,
    }
}

/// Maps a native type expression onto its bridgeable category, or rejects it
/// with a precise diagnostic. An explicit class-name attribute, where given,
/// overrides the class name derived for a boxed callback.
pub fn classify(e: &TypeExpr, class_name_attr: Option<&String>) -> (r: Result<
    JavaType,
    ClassificationError,
>)
    ensures
        r matches Ok(t) ==> spec_classify(e@, spec_attr(class_name_attr)) matches Ok(tv) && t@
            == tv,
        r matches Err(er) ==> spec_classify(e@, spec_attr(class_name_attr)) matches Err(ev) && er@
            == ev,
    decreases *e,
{
    proof {
        reveal_with_fuel(te_view, 2);
    }
    match e {
        TypeExpr::Unit => Ok(JavaType::Void),
        TypeExpr::TraitObj { path_text, .. } => Err(
            ClassificationError::UnsupportedType(path_text.clone()),
        ),
        TypeExpr::Ref { mutable, inner, text } => match &**inner {
            TypeExpr::Named { name, text: itext, .. } => {
                if str_eq(name.as_str(), "JNIEnv") {
                    Ok(JavaType::Env { mutable: *mutable })
                } else if *mutable {
                    Err(ClassificationError::MutableReference)
                } else {
                    Ok(JavaType::Reference { target: itext.clone() })
                }
            },
            _ => Err(ClassificationError::UnsupportedType(text.clone())),
        },
        TypeExpr::Named { name, first_arg, last_arg, text } => {
            if str_eq(name.as_str(), "String") {
                Ok(JavaType::Text)
            } else if str_eq(name.as_str(), "Self") {
                Ok(JavaType::This)
            } else if str_eq(name.as_str(), "i32") {
                Ok(JavaType::Integer)
            } else if str_eq(name.as_str(), "i64") {
                Ok(JavaType::Long)
            } else if str_eq(name.as_str(), "bool") {
                Ok(JavaType::Boolean)
            } else if str_eq(name.as_str(), "f32") {
                Ok(JavaType::Float)
            } else if str_eq(name.as_str(), "f64") {
                Ok(JavaType::Double)
            } else if str_eq(name.as_str(), "i16") {
                Ok(JavaType::Short)
            } else if str_eq(name.as_str(), "u16") {
                Ok(JavaType::Char)
            } else if str_eq(name.as_str(), "i8") {
                Ok(JavaType::Byte)
            } else if str_eq(name.as_str(), "JObject") {
                Ok(JavaType::Object)
            } else if str_eq(name.as_str(), "Result") && first_arg.is_some() {
                match first_arg {
                    Some(a) => match classify(&**a, None) {
                        Ok(i) => {
                            if matches!(i, JavaType::Fallible { .. }) {
                                Err(ClassificationError::NestedFallible)
                            } else if matches!(i, JavaType::Env { .. }) {
                                Err(ClassificationError::EnvNotAType)
                            } else {
                                Ok(JavaType::Fallible { inner: Box::new(i), rust_text: text.clone() })
                            }
                        },
                        Err(er) => Err(er),
                    },
                    None => Err(ClassificationError::UnsupportedType(text.clone())),
                }
            } else if str_eq(name.as_str(), "Option") && first_arg.is_some() {
                match first_arg {
                    Some(a) => match classify(&**a, None) {
                        Ok(i) => {
                            if matches!(i, JavaType::Optional { .. }) {
                                Err(ClassificationError::NestedOptional)
                            } else if !optional_inner_ok_exec(&i) {
                                Err(ClassificationError::UnsupportedOptional)
                            } else {
                                Ok(JavaType::Optional { inner: Box::new(i) })
                            }
                        },
                        Err(er) => Err(er),
                    },
                    None => Err(ClassificationError::UnsupportedType(text.clone())),
                }
            } else if str_eq(name.as_str(), "Vec") && first_arg.is_some() {
                match first_arg {
                    Some(a) => match classify(&**a, None) {
                        Ok(i) => {
                            if matches!(i, JavaType::This) {
                                Err(ClassificationError::NestedReceiver)
                            } else if !value_ok_exec(&i) {
                                Err(ClassificationError::UnsupportedType(a.text_of()))
                            } else {
                                Ok(
                                    JavaType::ListOf {
                                        elem: Box::new(i),
                                        elem_rust: a.text_of(),
                                    },
                                )
                            }
                        },
                        Err(er) => Err(er),
                    },
                    None => Err(ClassificationError::UnsupportedType(text.clone())),
                }
            } else if str_eq(name.as_str(), "HashMap") && first_arg.is_some()
                && last_arg.is_some() {
                match (first_arg, last_arg) {
                    (Some(fa), Some(la)) => match classify(&**fa, None) {
                        Ok(k) => match classify(&**la, None) {
                            Ok(v) => {
                                if matches!(k, JavaType::This) || matches!(v, JavaType::This) {
                                    Err(ClassificationError::NestedReceiver)
                                } else if !value_ok_exec(&k) {
                                    Err(ClassificationError::UnsupportedType(fa.text_of()))
                                } else if !value_ok_exec(&v) {
                                    Err(ClassificationError::UnsupportedType(la.text_of()))
                                } else {
                                    Ok(
                                        JavaType::MapOf {
                                            key: Box::new(k),
                                            value: Box::new(v),
                                            key_rust: fa.text_of(),
                                            value_rust: la.text_of(),
                                        },
                                    )
                                }
                            },
                            Err(er) => Err(er),
                        },
                        Err(er) => Err(er),
                    },
                    _ => Err(ClassificationError::UnsupportedType(text.clone())),
                }
            } else if str_eq(name.as_str(), "Box") && first_arg.is_some() {
                match first_arg {
                    Some(a) => match &**a {
                        TypeExpr::TraitObj {
                            has_trait_bound,
                            segments,
                            has_lifetime,
                            path_text,
                        } => {
                            if !*has_lifetime {
                                Err(ClassificationError::BoxWithoutLifetime)
                            } else {
                                let cls: Option<String> = match class_name_attr {
                                    Some(c) => Some(c.clone()),
                                    None => {
                                        if *has_trait_bound {
                                            Some(derived_class_name(segments))
                                        } else {
                                            None
                                        }
                                    },
                                };
                                match cls {
                                    Some(c) => {
                                        let mut rp = String::from_str("dyn ");
                                        rp.append(path_text.as_str());
                                        rp.append(" + 'local");
                                        Ok(
                                            JavaType::Interface {
                                                rust_path: rp,
                                                class_name: c,
                                            },
                                        )
                                    },
                                    None => Err(ClassificationError::MissingClassName),
                                }
                            }
                        },
                        _ => Err(ClassificationError::BoxWithoutTrait),
                    },
                    None => Err(ClassificationError::UnsupportedType(text.clone())),
                }
            } else {
                Err(ClassificationError::UnsupportedType(text.clone()))
            }
        },
    }
}

} // verus!
