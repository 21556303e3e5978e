//! The runtime conversions of host-nullable values: Java `null` stands for
//! the absent value.
use vstd::prelude::*;

verus! {

use crate::errors::JNIError;
use crate::jni_api::{
    env_bool_value,
    env_box_bool,
    env_box_byte,
    env_box_char,
    env_box_int,
    env_box_long,
    env_box_short,
    env_byte_value,
    env_char_value,
    env_get_string,
    env_int_value,
    env_long_value,
    env_new_string,
    env_short_value,
    is_null_obj,
    jni_error_to_error,
    null_obj,
    obj_is_null,
};

/// Reads an optional string: a null reference is the absent value and is
/// answered without touching the decoder; anything else is decoded.
pub fn string_from_jni(env: &mut jni::JNIEnv, val: jni::objects::JObject) -> (r: Result<
    Option<String>,
    JNIError,
>)
    ensures
        obj_is_null(val) ==> (r matches Ok(o) && o is None),
        r matches Ok(o) ==> (o is Some ==> !obj_is_null(val)),
        !obj_is_null(val) ==> (r matches Ok(o) ==> o is Some),
{
    if is_null_obj(&val) {
        Ok(None)
    } else {
        match env_get_string(env, val) {
            Ok(s) => Ok(Some(s)),
            Err(e) => Err(jni_error_to_error(e)),
        }
    }
}

/// Writes an optional string: the absent value becomes the null reference;
/// a present one is encoded into a fresh, non-null Java string.
pub fn string_into_jni<'a>(env: &mut jni::JNIEnv<'a>, val: Option<String>) -> (r: Result<
    jni::objects::JObject<'a>,
    JNIError,
>)
    ensures
        val is None ==> (r matches Ok(o) && obj_is_null(o)),
        r matches Ok(o) ==> (val is Some ==> !obj_is_null(o)),
{
    match val {
        Some(s) => match env_new_string(env, s.as_str()) {
            Ok(o) => Ok(o),
            Err(e) => Err(jni_error_to_error(e)),
        },
        None => Ok(null_obj()),
    }
}


/// Reads an optional boxed value: a null reference is the absent value and
/// is answered without touching the unboxing call.
pub fn i32_from_jni(env: &mut jni::JNIEnv, val: jni::objects::JObject) -> (r: Result<
    Option<i32>,
    JNIError,
>)
    ensures
        obj_is_null(val) ==> (r matches Ok(o) && o is None),
        r matches Ok(o) ==> (o is Some ==> !obj_is_null(val)),
        !obj_is_null(val) ==> (r matches Ok(o) ==> o is Some),
{
    if is_null_obj(&val) {
        Ok(None)
    } else {
        match env_int_value(env, &val) {
            Ok(v) => Ok(Some(v)),
            Err(e) => Err(jni_error_to_error(e)),
        }
    }
}

/// Writes an optional value: the absent value becomes the null reference; a
/// present one is boxed into a fresh, non-null wrapper object.
pub fn i32_into_jni<'a>(env: &mut jni::JNIEnv<'a>, val: Option<i32>) -> (r: Result<
    jni::objects::JObject<'a>,
    JNIError,
>)
    ensures
        val is None ==> (r matches Ok(o) && obj_is_null(o)),
        r matches Ok(o) ==> (val is Some ==> !obj_is_null(o)),
{
    match val {
        Some(v) => match env_box_int(env, v) {
            Ok(o) => Ok(o),
            Err(e) => Err(jni_error_to_error(e)),
        },
        None => Ok(null_obj()),
    }
}

/// Reads an optional boxed value: a null reference is the absent value and
/// is answered without touching the unboxing call.
pub fn i64_from_jni(env: &mut jni::JNIEnv, val: jni::objects::JObject) -> (r: Result<
    Option<i64>,
    JNIError,
>)
    ensures
        obj_is_null(val) ==> (r matches Ok(o) && o is None),
        r matches Ok(o) ==> (o is Some ==> !obj_is_null(val)),
        !obj_is_null(val) ==> (r matches Ok(o) ==> o is Some),
{
    if is_null_obj(&val) {
        Ok(None)
    } else {
        match env_long_value(env, &val) {
            Ok(v) => Ok(Some(v)),
            Err(e) => Err(jni_error_to_error(e)),
        }
    }
}

/// Writes an optional value: the absent value becomes the null reference; a
/// present one is boxed into a fresh, non-null wrapper object.
pub fn i64_into_jni<'a>(env: &mut jni::JNIEnv<'a>, val: Option<i64>) -> (r: Result<
    jni::objects::JObject<'a>,
    JNIError,
>)
    ensures
        val is None ==> (r matches Ok(o) && obj_is_null(o)),
        r matches Ok(o) ==> (val is Some ==> !obj_is_null(o)),
{
    match val {
        Some(v) => match env_box_long(env, v) {
            Ok(o) => Ok(o),
            Err(e) => Err(jni_error_to_error(e)),
        },
        None => Ok(null_obj()),
    }
}

/// Reads an optional boxed value: a null reference is the absent value and
/// is answered without touching the unboxing call.
pub fn bool_from_jni(env: &mut jni::JNIEnv, val: jni::objects::JObject) -> (r: Result<
    Option<bool>,
    JNIError,
>)
    ensures
        obj_is_null(val) ==> (r matches Ok(o) && o is None),
        r matches Ok(o) ==> (o is Some ==> !obj_is_null(val)),
        !obj_is_null(val) ==> (r matches Ok(o) ==> o is Some),
{
    if is_null_obj(&val) {
        Ok(None)
    } else {
        match env_bool_value(env, &val) {
            Ok(v) => Ok(Some(v)),
            Err(e) => Err(jni_error_to_error(e)),
        }
    }
}

/// Writes an optional value: the absent value becomes the null reference; a
/// present one is boxed into a fresh, non-null wrapper object.
pub fn bool_into_jni<'a>(env: &mut jni::JNIEnv<'a>, val: Option<bool>) -> (r: Result<
    jni::objects::JObject<'a>,
    JNIError,
>)
    ensures
        val is None ==> (r matches Ok(o) && obj_is_null(o)),
        r matches Ok(o) ==> (val is Some ==> !obj_is_null(o)),
{
    match val {
        Some(v) => match env_box_bool(env, v) {
            Ok(o) => Ok(o),
            Err(e) => Err(jni_error_to_error(e)),
        },
        None => Ok(null_obj()),
    }
}

/// Reads an optional boxed value: a null reference is the absent value and
/// is answered without touching the unboxing call.
pub fn i16_from_jni(env: &mut jni::JNIEnv, val: jni::objects::JObject) -> (r: Result<
    Option<i16>,
    JNIError,
>)
    ensures
        obj_is_null(val) ==> (r matches Ok(o) && o is None),
        r matches Ok(o) ==> (o is Some ==> !obj_is_null(val)),
        !obj_is_null(val) ==> (r matches Ok(o) ==> o is Some),
{
    if is_null_obj(&val) {
        Ok(None)
    } else {
        match env_short_value(env, &val) {
            Ok(v) => Ok(Some(v)),
            Err(e) => Err(jni_error_to_error(e)),
        }
    }
}

/// Writes an optional value: the absent value becomes the null reference; a
/// present one is boxed into a fresh, non-null wrapper object.
pub fn i16_into_jni<'a>(env: &mut jni::JNIEnv<'a>, val: Option<i16>) -> (r: Result<
    jni::objects::JObject<'a>,
    JNIError,
>)
    ensures
        val is None ==> (r matches Ok(o) && obj_is_null(o)),
        r matches Ok(o) ==> (val is Some ==> !obj_is_null(o)),
{
    match val {
        Some(v) => match env_box_short(env, v) {
            Ok(o) => Ok(o),
            Err(e) => Err(jni_error_to_error(e)),
        },
        None => Ok(null_obj()),
    }
}

/// Reads an optional boxed value: a null reference is the absent value and
/// is answered without touching the unboxing call.
pub fn u16_from_jni(env: &mut jni::JNIEnv, val: jni::objects::JObject) -> (r: Result<
    Option<u16>,
    JNIError,
>)
    ensures
        obj_is_null(val) ==> (r matches Ok(o) && o is None),
        r matches Ok(o) ==> (o is Some ==> !obj_is_null(val)),
        !obj_is_null(val) ==> (r matches Ok(o) ==> o is Some),
{
    if is_null_obj(&val) {
        Ok(None)
    } else {
        match env_char_value(env, &val) {
            Ok(v) => Ok(Some(v)),
            Err(e) => Err(jni_error_to_error(e)),
        }
    }
}

/// Writes an optional value: the absent value becomes the null reference; a
/// present one is boxed into a fresh, non-null wrapper object.
pub fn u16_into_jni<'a>(env: &mut jni::JNIEnv<'a>, val: Option<u16>) -> (r: Result<
    jni::objects::JObject<'a>,
    JNIError,
>)
    ensures
        val is None ==> (r matches Ok(o) && obj_is_null(o)),
        r matches Ok(o) ==> (val is Some ==> !obj_is_null(o)),
{
    match val {
        Some(v) => match env_box_char(env, v) {
            Ok(o) => Ok(o),
            Err(e) => Err(jni_error_to_error(e)),
        },
        None => Ok(null_obj()),
    }
}

/// Reads an optional boxed value: a null reference is the absent value and
/// is answered without touching the unboxing call.
pub fn i8_from_jni(env: &mut jni::JNIEnv, val: jni::objects::JObject) -> (r: Result<
    Option<i8>,
    JNIError,
>)
    ensures
        obj_is_null(val) ==> (r matches Ok(o) && o is None),
        r matches Ok(o) ==> (o is Some ==> !obj_is_null(val)),
        !obj_is_null(val) ==> (r matches Ok(o) ==> o is Some),
{
    if is_null_obj(&val) {
        Ok(None)
    } else {
        match env_byte_value(env, &val) {
            Ok(v) => Ok(Some(v)),
            Err(e) => Err(jni_error_to_error(e)),
        }
    }
}

/// Writes an optional value: the absent value becomes the null reference; a
/// present one is boxed into a fresh, non-null wrapper object.
pub fn i8_into_jni<'a>(env: &mut jni::JNIEnv<'a>, val: Option<i8>) -> (r: Result<
    jni::objects::JObject<'a>,
    JNIError,
>)
    ensures
        val is None ==> (r matches Ok(o) && obj_is_null(o)),
        r matches Ok(o) ==> (val is Some ==> !obj_is_null(o)),
{
    match val {
        Some(v) => match env_box_byte(env, v) {
            Ok(o) => Ok(o),
            Err(e) => Err(jni_error_to_error(e)),
        },
        None => Ok(null_obj()),
    }
}

} // verus!
