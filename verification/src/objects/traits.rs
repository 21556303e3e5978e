//! How values cross the boundary at runtime: a type that can be read out of
//! a Java object, a type that can be turned into one, and the conversion of
//! foreign results into the runtime's error type.
use vstd::prelude::*;

verus! {

use crate::errors::JNIError;

/// A native type that can be read out of a Java object. Reading a null
/// reference fails unless the implementing type is an `Option`.
pub trait FromJNI<'local>: Sized {
    fn from_jni(
        env: &mut jni::JNIEnv<'local>,
        obj: jni::objects::JObject<'local>,
    ) -> core::result::Result<Self, JNIError>;
}

/// A native type that was handed to Java as an object and may be read back.
pub trait ObjectFromJNI<'local>: FromJNI<'local> + Send + Sync {

}

/// A native type that can be turned into a Java object. The object may be
/// null only where the implementing type is an `Option`.
pub trait IntoJNI {
    fn into_jni<'a>(
        self,
        env: &mut jni::JNIEnv<'a>,
    ) -> core::result::Result<jni::objects::JObject<'a>, JNIError>;
}

/// Converts any foreign result into the runtime's own result type.
pub trait IntoJNIResult<T> {
    fn into_jni_result(self) -> core::result::Result<T, JNIError>;
}

impl<T> IntoJNIResult<T> for core::result::Result<T, JNIError> {
    /// The error is already the runtime's own: the result passes through
    /// unchanged.
    fn into_jni_result(self) -> (r: core::result::Result<T, JNIError>)
        ensures
            r == self,
    {
        self
    }
}

impl<T> IntoJNIResult<T> for core::result::Result<T, jni::errors::Error> {
    /// Maps the runtime's Java-call errors onto the error the bridge raises.
    fn into_jni_result(self) -> (r: core::result::Result<T, JNIError>)
        ensures
            r is Ok <==> self is Ok,
            r matches Ok(v) ==> self matches Ok(w) && v == w,
    {
        match self {
            Ok(v) => Ok(v),
            Err(e) => Err(crate::jni_api::jni_error_to_error(e)),
        }
    }
}

impl<T> IntoJNIResult<T> for core::result::Result<T, String> {
    /// Wraps a plain error message, leaving the exception class to the
    /// default.
    fn into_jni_result(self) -> (r: core::result::Result<T, JNIError>)
        ensures
            r is Ok <==> self is Ok,
            r matches Ok(v) ==> self matches Ok(w) && v == w,
            r matches Err(e) ==> self matches Err(m) && e.message == m && e.class is None,
    {
        match self {
            Ok(v) => Ok(v),
            Err(m) => Err(JNIError::runtime_error(m)),
        }
    }
}

} // verus!
