//! The parsed declaration surface the generator receives: a function
//! signature with its receiver, parameters and documentation, and the flat
//! attribute bag that accompanies a declaration.
use vstd::prelude::*;

verus! {

use crate::errors::ClassificationError;
use crate::type_expr::{TypeExpr, TypeExprV};

/// One non-receiver formal parameter: its name, its parsed type, and an
/// optional class-name attribute on the parameter.
#[derive(Debug)]
pub struct Param {
    pub name: String,
    pub ty: TypeExpr,
    pub class_name_attr: Option<String>,
}

pub struct ParamV {
    pub name: Seq<char>,
    pub ty: TypeExprV,
    pub class_name_attr: Option<Seq<char>>,
}

impl View for Param {
    type V = ParamV;

    open spec fn view(&self) -> ParamV {
        ParamV {
            name: self.name@,
            ty: crate::type_expr::te_view(self.ty),
            class_name_attr: match self.class_name_attr {
                Some(ref s) => Some(s@),
                None => None,
            },
        }
    }
}

/// How the receiver is taken.
#[derive(Debug, PartialEq, Eq, Structural, Clone, Copy)]
pub enum Receiver {
    /// `self` by value; not bridgeable.
    ByValue,
    /// `&self` or `&mut self`.
    ByRef { mutable: bool },
}

/// A parsed function signature together with its per-method attributes.
#[derive(Debug)]
pub struct FnSig {
    pub ident: String,
    pub receiver: Option<Receiver>,
    pub params: Vec<Param>,
    pub output: Option<TypeExpr>,
    pub doc_lines: Vec<String>,
    pub rename: Option<String>,
    pub constructor: bool,
    pub has_jni: bool,
}

pub struct FnSigV {
    pub ident: Seq<char>,
    pub receiver: Option<Receiver>,
    pub params: Seq<ParamV>,
    pub output: Option<TypeExprV>,
    pub doc_lines: Seq<Seq<char>>,
    pub rename: Option<Seq<char>>,
    pub constructor: bool,
    pub has_jni: bool,
}

impl View for FnSig {
    type V = FnSigV;

    open spec fn view(&self) -> FnSigV {
        FnSigV {
            ident: self.ident@,
            receiver: self.receiver,
            params: self.params@.map_values(|p: Param| p@),
            output: match self.output {
                Some(ref e) => Some(crate::type_expr::te_view(*e)),
                None => None,
            },
            doc_lines: self.doc_lines@.map_values(|l: String| l@),
            rename: match self.rename {
                Some(ref s) => Some(s@),
                None => None,
            },
            constructor: self.constructor,
            has_jni: self.has_jni,
        }
    }
}

/// The flat attribute bag of a class or interface declaration: the required
/// namespace, an optional rename, whether the method is a constructor, an
/// optional library to load, and an optional class-name override.
#[derive(Debug)]
pub struct BindgenAttrs {
    pub namespace: Option<String>,
    pub rename: Option<String>,
    pub constructor: bool,
    pub load_lib: Option<String>,
    pub class_name: Option<String>,
}

impl BindgenAttrs {
    /// The namespace, which every bridged declaration must name.
    pub fn get_namespace(&self) -> (r: Result<String, ClassificationError>)
        ensures
            r matches Ok(s) ==> self.namespace matches Some(n) && s@ == n@,
            r is Err ==> self.namespace is None,
            r matches Err(e) ==> e@ == crate::errors::ClassificationErrorV::MissingNamespace,
    {
        match &self.namespace {
            Some(n) => Ok(n.clone()),
            None => Err(ClassificationError::MissingNamespace),
        }
    }

    /// The explicit class-name override, where given.
    pub fn get_class_name(&self) -> (r: Option<&String>)
        ensures
            r matches Some(s) ==> self.class_name matches Some(c) && s@ == c@,
            r is None ==> self.class_name is None,
    {
        self.class_name.as_ref()
    }

    /// The host-visible rename, where given.
    pub fn get_rename(&self) -> (r: Option<&String>)
        ensures
            r matches Some(s) ==> self.rename matches Some(c) && s@ == c@,
            r is None ==> self.rename is None,
    {
        self.rename.as_ref()
    }

    /// Whether the constructor flag is set.
    pub fn is_constructor(&self) -> (r: bool)
        ensures
            r == self.constructor,
    {
        self.constructor
    }

    /// The native library the generated class loads, where given.
    pub fn load_lib(&self) -> (r: Option<&String>)
        ensures
            r matches Some(s) ==> self.load_lib matches Some(c) && s@ == c@,
            r is None ==> self.load_lib is None,
    {
        self.load_lib.as_ref()
    }
}

} // verus!
