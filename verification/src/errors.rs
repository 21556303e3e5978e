//! The error model of the generated bridge functions: the Java exception
//! class that a failure maps onto, and the error value that carries a
//! message together with an optional class override.
use vstd::prelude::*;

verus! {

use vstd::string::StringExecFns;
use crate::text::{replace_char, replace_char_seq};

/// The Java class of an error, used to choose which exception the bridge
/// raises. `Any` carries a custom class name, written with `.` or `/`
/// separators.
#[derive(Clone, Debug)]
pub enum ErrorClass {
    NullPointer,
    IllegalArgument,
    IllegalState,
    UnsupportedOperation,
    Runtime,
    Exception,
    NoSuchMethod,
    NoSuchField,
    NativeExecutionException,
    Any(String),
}

/// The slash-separated Java class name that `into_class_name` yields.
pub open spec fn spec_class_name(e: ErrorClass) -> Seq<char> {
    match e {
        ErrorClass::NullPointer => "java/lang/NullPointerException"@,
        ErrorClass::IllegalArgument => "java/lang/IllegalArgumentException"@,
        ErrorClass::IllegalState => "java/lang/IllegalStateException"@,
        ErrorClass::UnsupportedOperation => "java/lang/UnsupportedOperationException"@,
        ErrorClass::Runtime => "java/lang/RuntimeException"@,
        ErrorClass::Exception => "java/lang/Exception"@,
        ErrorClass::NoSuchMethod => "java/lang/NoSuchMethodException"@,
        ErrorClass::NoSuchField => "java/lang/NoSuchFieldException"@,
        ErrorClass::NativeExecutionException => (
        "com/github/markusjx/jnibindgen/NativeExecutionException"@),
        ErrorClass::Any(s) => replace_char_seq(s@, '.', '/'),
    }
}

impl ErrorClass {
    /// Converts the class into its slash-separated JNI name; a custom class
    /// name may be written with dots, which are replaced.
    pub fn into_class_name(self) -> (r: String)
        ensures
            r@ == spec_class_name(self),
    {
        match self {
            ErrorClass::NullPointer => String::from_str("java/lang/NullPointerException"),
            ErrorClass::IllegalArgument => String::from_str("java/lang/IllegalArgumentException"),
            ErrorClass::IllegalState => String::from_str("java/lang/IllegalStateException"),
            ErrorClass::UnsupportedOperation => String::from_str(
                "java/lang/UnsupportedOperationException",
            ),
            ErrorClass::Runtime => String::from_str("java/lang/RuntimeException"),
            ErrorClass::Exception => String::from_str("java/lang/Exception"),
            ErrorClass::NoSuchMethod => String::from_str("java/lang/NoSuchMethodException"),
            ErrorClass::NoSuchField => String::from_str("java/lang/NoSuchFieldException"),
            ErrorClass::NativeExecutionException => String::from_str(
                "com/github/markusjx/jnibindgen/NativeExecutionException",
            ),
            ErrorClass::Any(s) => replace_char(s.as_str(), '.', '/'),
        }
    }
}

impl Default for ErrorClass {
    /// An error without a known class is raised as a plain runtime exception.
    fn default() -> (r: Self)
        ensures
            r is Runtime,
    {
        ErrorClass::Runtime
    }
}

/// A generation-time diagnostic: the signature or type shape handed to the
/// generator falls outside the supported grammar. Generation for the
/// offending declaration aborts; nothing is emitted for it.
#[derive(Clone, Debug, PartialEq)]
pub enum ClassificationError {
    /// A mutable reference to anything but the JNI environment.
    MutableReference,
    /// `Fallible` wrapping another `Fallible`.
    NestedFallible,
    /// `Optional` wrapping another `Optional`.
    NestedOptional,
    /// `Optional` wrapping a category outside its allow-list.
    UnsupportedOptional,
    /// The receiver pseudo-type nested inside another category.
    NestedReceiver,
    /// A boxed callback without a lifetime parameter.
    BoxWithoutLifetime,
    /// A boxed parameter that is not a trait object.
    BoxWithoutTrait,
    /// A boxed callback whose Java class name can neither be derived nor was
    /// given by attribute.
    MissingClassName,
    /// A type expression matching none of the known shapes; carries its
    /// rendered text.
    UnsupportedType(String),
    /// A receiver taken by value rather than by reference.
    ReceiverNotReference,
    /// The receiver used where a marshaled argument is expected.
    SelfArgument,
    /// `Void` used where a marshaled argument is expected.
    VoidArgument,
    /// `Fallible` used where a marshaled argument is expected.
    FallibleArgument,
    /// The environment used where a Java-visible type is expected.
    EnvNotAType,
    /// An object reference in return position.
    ReferenceReturned,
    /// An object reference passed back into Java.
    ReferencePassed,
    /// A callback in return position.
    InterfaceReturned,
    /// A trait method declared without a receiver.
    TraitMethodStatic,
    /// A trait method whose return type is not `Fallible`.
    TraitMethodNotFallible,
    /// A trait method without an environment parameter.
    TraitMethodNeedsEnv,
    /// A trait method whose environment parameter is not mutable.
    TraitMethodEnvNotMutable,
    /// A trait method whose receiver is a mutable borrow.
    TraitMethodMutableReceiver,
    /// A declaration without the required namespace attribute.
    MissingNamespace,
}

/// The mathematical shape of a `ClassificationError`.
pub enum ClassificationErrorV {
    MutableReference,
    NestedFallible,
    NestedOptional,
    UnsupportedOptional,
    NestedReceiver,
    BoxWithoutLifetime,
    BoxWithoutTrait,
    MissingClassName,
    UnsupportedType(Seq<char>),
    ReceiverNotReference,
    SelfArgument,
    VoidArgument,
    FallibleArgument,
    EnvNotAType,
    ReferenceReturned,
    ReferencePassed,
    InterfaceReturned,
    TraitMethodStatic,
    TraitMethodNotFallible,
    TraitMethodNeedsEnv,
    TraitMethodEnvNotMutable,
    TraitMethodMutableReceiver,
    MissingNamespace,
}

impl View for ClassificationError {
    type V = ClassificationErrorV;

    open spec fn view(&self) -> ClassificationErrorV {
        match self {
            ClassificationError::MutableReference => ClassificationErrorV::MutableReference,
            ClassificationError::NestedFallible => ClassificationErrorV::NestedFallible,
            ClassificationError::NestedOptional => ClassificationErrorV::NestedOptional,
            ClassificationError::UnsupportedOptional => ClassificationErrorV::UnsupportedOptional,
            ClassificationError::NestedReceiver => ClassificationErrorV::NestedReceiver,
            ClassificationError::BoxWithoutLifetime => ClassificationErrorV::BoxWithoutLifetime,
            ClassificationError::BoxWithoutTrait => ClassificationErrorV::BoxWithoutTrait,
            ClassificationError::MissingClassName => ClassificationErrorV::MissingClassName,
            ClassificationError::UnsupportedType(s) => ClassificationErrorV::UnsupportedType(s@),
            ClassificationError::ReceiverNotReference => (
            ClassificationErrorV::ReceiverNotReference),
            ClassificationError::SelfArgument => ClassificationErrorV::SelfArgument,
            ClassificationError::VoidArgument => ClassificationErrorV::VoidArgument,
            ClassificationError::FallibleArgument => ClassificationErrorV::FallibleArgument,
            ClassificationError::EnvNotAType => ClassificationErrorV::EnvNotAType,
            ClassificationError::ReferenceReturned => ClassificationErrorV::ReferenceReturned,
            ClassificationError::ReferencePassed => ClassificationErrorV::ReferencePassed,
            ClassificationError::InterfaceReturned => ClassificationErrorV::InterfaceReturned,
            ClassificationError::TraitMethodStatic => ClassificationErrorV::TraitMethodStatic,
            ClassificationError::TraitMethodNotFallible => (
            ClassificationErrorV::TraitMethodNotFallible),
            ClassificationError::TraitMethodNeedsEnv => ClassificationErrorV::TraitMethodNeedsEnv,
            ClassificationError::TraitMethodEnvNotMutable => (
            ClassificationErrorV::TraitMethodEnvNotMutable),
            ClassificationError::TraitMethodMutableReceiver => (
            ClassificationErrorV::TraitMethodMutableReceiver),
            ClassificationError::MissingNamespace => ClassificationErrorV::MissingNamespace,
        }
    }
}

/// The diagnostic text of a generation-time error.
pub open spec fn spec_diagnostic(e: ClassificationErrorV) -> Seq<char> {
    match e {
        ClassificationErrorV::MutableReference => "Mutable references are not supported"@,
        ClassificationErrorV::NestedFallible => "Result must not be nested"@,
        ClassificationErrorV::NestedOptional => "Option must not be nested"@,
        ClassificationErrorV::UnsupportedOptional => "Unsupported option type"@,
        ClassificationErrorV::NestedReceiver => "Self must not be nested in another type"@,
        ClassificationErrorV::BoxWithoutLifetime => "Box must have a lifetime parameter"@,
        ClassificationErrorV::BoxWithoutTrait => "Box must have a dyn Trait parameter"@,
        ClassificationErrorV::MissingClassName => (
        "Box must have a class_name attribute naming its Java class"@),
        ClassificationErrorV::UnsupportedType(t) => "Unsupported type: '"@ + t + "'"@,
        ClassificationErrorV::ReceiverNotReference => "self argument must be a reference"@,
        ClassificationErrorV::SelfArgument => (
        "Self is not a valid argument for a JNI method"@),
        ClassificationErrorV::VoidArgument => (
        "Void is not a valid argument for a JNI method"@),
        ClassificationErrorV::FallibleArgument => (
        "Result is not a valid argument for a JNI method"@),
        ClassificationErrorV::EnvNotAType => "Env is not a valid Java type"@,
        ClassificationErrorV::ReferenceReturned => "A reference to a type cannot be returned"@,
        ClassificationErrorV::ReferencePassed => "A reference to a type cannot be passed"@,
        ClassificationErrorV::InterfaceReturned => "Interfaces cannot be returned"@,
        ClassificationErrorV::TraitMethodStatic => "Trait methods cannot be static"@,
        ClassificationErrorV::TraitMethodNotFallible => "Trait methods must return a Result"@,
        ClassificationErrorV::TraitMethodNeedsEnv => "Trait methods must take a JNIEnv"@,
        ClassificationErrorV::TraitMethodEnvNotMutable => (
        "JNIEnv must be mutable in trait methods"@),
        ClassificationErrorV::TraitMethodMutableReceiver => (
        "Trait methods must take their receiver by shared reference"@),
        ClassificationErrorV::MissingNamespace => "Missing namespace = \"...\" attribute"@,
    }
}

impl ClassificationError {
    /// The diagnostic text surfaced for this error at generation time.
    pub fn message(&self) -> (r: String)
        ensures
            r@ == spec_diagnostic(self@),
    {
        match self {
            ClassificationError::MutableReference => String::from_str(
                "Mutable references are not supported",
            ),
            ClassificationError::NestedFallible => String::from_str("Result must not be nested"),
            ClassificationError::NestedOptional => String::from_str("Option must not be nested"),
            ClassificationError::UnsupportedOptional => String::from_str(
                "Unsupported option type",
            ),
            ClassificationError::NestedReceiver => String::from_str(
                "Self must not be nested in another type",
            ),
            ClassificationError::BoxWithoutLifetime => String::from_str(
                "Box must have a lifetime parameter",
            ),
            ClassificationError::BoxWithoutTrait => String::from_str(
                "Box must have a dyn Trait parameter",
            ),
            ClassificationError::MissingClassName => String::from_str(
                "Box must have a class_name attribute naming its Java class",
            ),
            ClassificationError::UnsupportedType(t) => {
                let mut m = String::from_str("Unsupported type: '");
                m.append(t.as_str());
                m.append("'");
                m
            },
            ClassificationError::ReceiverNotReference => String::from_str(
                "self argument must be a reference",
            ),
            ClassificationError::SelfArgument => String::from_str(
                "Self is not a valid argument for a JNI method",
            ),
            ClassificationError::VoidArgument => String::from_str(
                "Void is not a valid argument for a JNI method",
            ),
            ClassificationError::FallibleArgument => String::from_str(
                "Result is not a valid argument for a JNI method",
            ),
            ClassificationError::EnvNotAType => String::from_str("Env is not a valid Java type"),
            ClassificationError::ReferenceReturned => String::from_str(
                "A reference to a type cannot be returned",
            ),
            ClassificationError::ReferencePassed => String::from_str(
                "A reference to a type cannot be passed",
            ),
            ClassificationError::InterfaceReturned => String::from_str(
                "Interfaces cannot be returned",
            ),
            ClassificationError::TraitMethodStatic => String::from_str(
                "Trait methods cannot be static",
            ),
            ClassificationError::TraitMethodNotFallible => String::from_str(
                "Trait methods must return a Result",
            ),
            ClassificationError::TraitMethodNeedsEnv => String::from_str(
                "Trait methods must take a JNIEnv",
            ),
            ClassificationError::TraitMethodEnvNotMutable => String::from_str(
                "JNIEnv must be mutable in trait methods",
            ),
            ClassificationError::TraitMethodMutableReceiver => String::from_str(
                "Trait methods must take their receiver by shared reference",
            ),
            ClassificationError::MissingNamespace => String::from_str(
                "Missing namespace = \"...\" attribute",
            ),
        }
    }
}

/// An error that the generated bridge raises in Java: a message and an
/// optional exception class, defaulting to `Runtime` when absent.
#[derive(Clone, Debug)]
pub struct JNIError {
    pub message: String,
    pub class: Option<ErrorClass>,
}

impl JNIError {
    /// Builds an error from a message and an optional class.
    pub fn new(message: String, class: Option<ErrorClass>) -> (r: Self)
        ensures
            r.message == message,
            r.class == class,
    {
        JNIError { message, class }
    }

    /// Builds an error whose class is left to the default.
    pub fn runtime_error(message: String) -> (r: Self)
        ensures
            r.message == message,
            r.class is None,
    {
        JNIError::new(message, None)
    }

    /// Sets the class of the error only where none was chosen yet.
    pub fn or_class(self, class: ErrorClass) -> (r: Self)
        ensures
            r.message == self.message,
            self.class is None ==> r.class == Some(class),
            self.class is Some ==> r.class == self.class,
    {
        if self.class.is_none() {
            JNIError { message: self.message, class: Some(class) }
        } else {
            self
        }
    }
}

impl From<String> for JNIError {
    /// Wraps a plain error message, leaving the exception class to the
    /// default; native code may thus hand string errors straight to the
    /// bridge.
    fn from(value: String) -> (r: Self) {
        JNIError { message: value, class: None }
    }
}

impl vstd::std_specs::convert::FromSpecImpl<String> for JNIError {
    open spec fn obeys_from_spec() -> bool {
        true
    }

    open spec fn from_spec(value: String) -> JNIError {
        JNIError { message: value, class: None }
    }
}

/// The decision at the handle boundary, over the plain values the caller
/// reads there: a null handle is rejected with a null-pointer error, a
/// type-hash mismatch with an illegal-argument error naming the expected
/// native type, and only a non-null handle of the matching hash passes.
pub fn check_handle(is_null: bool, got: i64, want: i64, expected_ty: &str) -> (r: Result<
    (),
    JNIError,
>)
    ensures
        r is Ok <==> (!is_null && got == want),
        is_null ==> (r matches Err(e) && e.message@ == "The pointer is null"@ && e.class == Some(
            ErrorClass::NullPointer,
        )),
        (!is_null && got != want) ==> (r matches Err(e) && e.message@
            == "Expected object of type "@ + expected_ty@ && e.class == Some(
            ErrorClass::IllegalArgument,
        )),
{
    if is_null {
        Err(
            JNIError {
                message: String::from_str("The pointer is null"),
                class: Some(ErrorClass::NullPointer),
            },
        )
    } else if got != want {
        let mut m = String::from_str("Expected object of type ");
        m.append(expected_ty);
        Err(JNIError { message: m, class: Some(ErrorClass::IllegalArgument) })
    } else {
        Ok(())
    }
}

impl JNIError {
    /// Raises this error in the Java runtime, as an exception of its class
    /// or of the default class where none was chosen. The runtime call's
    /// outcome is discarded, as the bridge returns its sentinel right after.
    pub fn throw(self, env: &mut jni::JNIEnv) {
        let class = match self.class {
            Some(c) => c,
            None => ErrorClass::Runtime,
        };
        let name = class.into_class_name();
        crate::jni_api::env_throw_new(env, name.as_str(), self.message.as_str());
    }
}

} // verus!
