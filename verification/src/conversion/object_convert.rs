//! The runtime conversions of Java lists and maps: element-wise loops over
//! the collection as Java reports it.
use vstd::prelude::*;

verus! {

use vstd::string::StringExecFns;
use crate::errors::JNIError;
use crate::jni_api::{
    env_get_list,
    env_get_map,
    env_list_add,
    env_list_get,
    env_list_size,
    env_map_iter,
    env_map_iter_next,
    env_map_put,
    env_map_size,
    env_new_array_list,
    env_new_hash_map,
    jni_error_to_error,
};
use crate::objects::traits::{FromJNI, IntoJNI};

/// Reads a Java list into a vector, converting each element in order; the
/// elements are those the list reports when the read starts.
pub fn into_vec<'local, T: FromJNI<'local>>(
    env: &mut jni::JNIEnv<'local>,
    obj: jni::objects::JObject<'local>,
) -> (r: Result<Vec<T>, JNIError>) {
    let list = match env_get_list(env, &obj) {
        Ok(l) => l,
        Err(e) => {
            return Err(jni_error_to_error(e));
        },
    };
    let n = match env_list_size(&list, env) {
        Ok(n) => n,
        Err(e) => {
            return Err(jni_error_to_error(e));
        },
    };
    let mut out: Vec<T> = Vec::new();
    let mut i: i32 = 0;
    while i < n
        invariant
            n <= i32::MAX,
            i <= n || (n < 0 && i == 0),
        decreases n - i,
    {
        match env_list_get(&list, env, i) {
            Ok(Some(o)) => match T::from_jni(env, o) {
                Ok(v) => {
                    out.push(v);
                },
                Err(e) => {
                    return Err(e);
                },
            },
            Ok(None) => {
                return Ok(out);
            },
            Err(e) => {
                return Err(jni_error_to_error(e));
            },
        }
        i = i + 1;
    }
    Ok(out)
}

/// Writes a vector into a fresh Java list, converting each element in order;
/// the list handed back on success is never the null reference.
pub fn from_vec<'a, T: IntoJNI>(env: &mut jni::JNIEnv<'a>, vec: Vec<T>) -> (r: Result<
    jni::objects::JObject<'a>,
    JNIError,
>)
    ensures
        r matches Ok(o) ==> !crate::jni_api::obj_is_null(o),
{
    let list = match env_new_array_list(env) {
        Ok(l) => l,
        Err(e) => {
            return Err(jni_error_to_error(e));
        },
    };
    let mut rest = vec;
    while rest.len() > 0
        invariant
            !crate::jni_api::obj_is_null(list),
        decreases rest.len(),
    {
        let v = rest.remove(0);
        let converted = match v.into_jni(env) {
            Ok(o) => o,
            Err(e) => {
                return Err(e);
            },
        };
        match env_list_add(env, &list, &converted) {
            Ok(()) => {},
            Err(e) => {
                return Err(jni_error_to_error(e));
            },
        }
    }
    Ok(list)
}

/// Reads a Java map into a hash map, converting keys and values entry by
/// entry; at most the number of entries the map reports when the read
/// starts.
pub fn into_hashmap<'local, K: FromJNI<'local> + core::cmp::Eq + core::hash::Hash, V: FromJNI<
    'local,
>>(env: &mut jni::JNIEnv<'local>, obj: jni::objects::JObject<'local>) -> (r: Result<
    std::collections::HashMap<K, V>,
    JNIError,
>) {
    let n = match env_map_size(env, &obj) {
        Ok(n) => n,
        Err(e) => {
            return Err(jni_error_to_error(e));
        },
    };
    let j_map = match env_get_map(env, &obj) {
        Ok(m) => m,
        Err(e) => {
            return Err(jni_error_to_error(e));
        },
    };
    let mut it = match env_map_iter(&j_map, env) {
        Ok(it) => it,
        Err(e) => {
            return Err(jni_error_to_error(e));
        },
    };
    let mut out: std::collections::HashMap<K, V> = std::collections::HashMap::new();
    let mut i: i32 = 0;
    while i < n
        invariant
            n <= i32::MAX,
            i <= n || (n < 0 && i == 0),
        decreases n - i,
    {
        match env_map_iter_next(&mut it, env) {
            Ok(Some((k_obj, v_obj))) => {
                let k = match K::from_jni(env, k_obj) {
                    Ok(k) => k,
                    Err(e) => {
                        return Err(e);
                    },
                };
                let v = match V::from_jni(env, v_obj) {
                    Ok(v) => v,
                    Err(e) => {
                        return Err(e);
                    },
                };
                out.insert(k, v);
            },
            Ok(None) => {
                return Ok(out);
            },
            Err(e) => {
                return Err(jni_error_to_error(e));
            },
        }
        i = i + 1;
    }
    Ok(out)
}

/// Writes the entries of a native map into a fresh Java map; the map handed
/// back on success is never the null reference.
pub fn from_hashmap<'a, K: IntoJNI, V: IntoJNI>(
    env: &mut jni::JNIEnv<'a>,
    map: std::collections::HashMap<K, V>,
) -> (r: Result<jni::objects::JObject<'a>, JNIError>)
    ensures
        r matches Ok(o) ==> !crate::jni_api::obj_is_null(o),
{
    let j_map = match env_new_hash_map(env) {
        Ok(m) => m,
        Err(e) => {
            return Err(jni_error_to_error(e));
        },
    };
    let mut rest = crate::jni_api::hashmap_entries(map);
    while rest.len() > 0
        invariant
            !crate::jni_api::obj_is_null(j_map),
        decreases rest.len(),
    {
        let (k, v) = rest.remove(0);
        let k_obj = match k.into_jni(env) {
            Ok(o) => o,
            Err(e) => {
                return Err(e);
            },
        };
        let v_obj = match v.into_jni(env) {
            Ok(o) => o,
            Err(e) => {
                return Err(e);
            },
        };
        match env_map_put(env, &j_map, &k_obj, &v_obj) {
            Ok(()) => {},
            Err(e) => {
                return Err(jni_error_to_error(e));
            },
        }
    }
    Ok(j_map)
}

impl<'local> FromJNI<'local> for jni::objects::JObject<'local> {
    /// An opaque object crosses unexamined: the incoming reference itself is
    /// the native value.
    fn from_jni(
        _env: &mut jni::JNIEnv<'local>,
        obj: jni::objects::JObject<'local>,
    ) -> core::result::Result<Self, JNIError> {
        Ok(obj)
    }
}

impl<'b> IntoJNI for jni::objects::JObject<'b> {
    /// Hands an opaque object back as a fresh local reference to the same
    /// Java object.
    fn into_jni<'a>(
        self,
        env: &mut jni::JNIEnv<'a>,
    ) -> core::result::Result<jni::objects::JObject<'a>, JNIError> {
        match crate::jni_api::env_new_local_ref(env, &self) {
            Ok(o) => Ok(o),
            Err(e) => Err(jni_error_to_error(e)),
        }
    }
}

impl<'local> FromJNI<'local> for jni::objects::JString<'local> {
    /// An incoming reference becomes a string handle without inspection;
    /// the caller vouches for the object's class at this boundary.
    fn from_jni(
        _env: &mut jni::JNIEnv<'local>,
        obj: jni::objects::JObject<'local>,
    ) -> core::result::Result<Self, JNIError> {
        Ok(crate::jni_api::jstring_of(obj))
    }
}

impl<'b> IntoJNI for jni::objects::JString<'b> {
    /// Hands a string handle back as a fresh local reference to the same
    /// Java string.
    fn into_jni<'a>(
        self,
        env: &mut jni::JNIEnv<'a>,
    ) -> core::result::Result<jni::objects::JObject<'a>, JNIError> {
        match crate::jni_api::env_new_local_ref_string(env, &self) {
            Ok(o) => Ok(o),
            Err(e) => Err(jni_error_to_error(e)),
        }
    }
}

impl<'local> FromJNI<'local> for String {
    /// Reads a non-null Java string; a null reference is an error here.
    fn from_jni(
        env: &mut jni::JNIEnv<'local>,
        obj: jni::objects::JObject<'local>,
    ) -> core::result::Result<Self, JNIError> {
        match crate::conversion::option_convert::string_from_jni(env, obj) {
            Ok(Some(s)) => Ok(s),
            Ok(None) => Err(JNIError::runtime_error(String::from_str("The value is null"))),
            Err(e) => Err(e),
        }
    }
}

impl IntoJNI for String {
    fn into_jni<'a>(
        self,
        env: &mut jni::JNIEnv<'a>,
    ) -> core::result::Result<jni::objects::JObject<'a>, JNIError> {
        crate::conversion::option_convert::string_into_jni(env, Some(self))
    }
}

impl<'local> FromJNI<'local> for Option<String> {
    fn from_jni(
        env: &mut jni::JNIEnv<'local>,
        obj: jni::objects::JObject<'local>,
    ) -> core::result::Result<Self, JNIError> {
        crate::conversion::option_convert::string_from_jni(env, obj)
    }
}

impl IntoJNI for Option<String> {
    fn into_jni<'a>(
        self,
        env: &mut jni::JNIEnv<'a>,
    ) -> core::result::Result<jni::objects::JObject<'a>, JNIError> {
        crate::conversion::option_convert::string_into_jni(env, self)
    }
}

impl<'local, T: FromJNI<'local>> FromJNI<'local> for Vec<T> {
    fn from_jni(
        env: &mut jni::JNIEnv<'local>,
        obj: jni::objects::JObject<'local>,
    ) -> core::result::Result<Self, JNIError> {
        into_vec(env, obj)
    }
}

impl<T: IntoJNI> IntoJNI for Vec<T> {
    fn into_jni<'a>(
        self,
        env: &mut jni::JNIEnv<'a>,
    ) -> core::result::Result<jni::objects::JObject<'a>, JNIError> {
        from_vec(env, self)
    }
}

impl<
    'local,
    K: FromJNI<'local> + core::cmp::Eq + core::hash::Hash,
    V: FromJNI<'local>,
> FromJNI<'local> for std::collections::HashMap<K, V> {
    fn from_jni(
        env: &mut jni::JNIEnv<'local>,
        obj: jni::objects::JObject<'local>,
    ) -> core::result::Result<Self, JNIError> {
        into_hashmap(env, obj)
    }
}

impl<K: IntoJNI, V: IntoJNI> IntoJNI for std::collections::HashMap<K, V> {
    fn into_jni<'a>(
        self,
        env: &mut jni::JNIEnv<'a>,
    ) -> core::result::Result<jni::objects::JObject<'a>, JNIError> {
        from_hashmap(env, self)
    }
}


impl<'local> FromJNI<'local> for i32 {
    /// Reads a non-null boxed value; a null reference is an error here.
    fn from_jni(
        env: &mut jni::JNIEnv<'local>,
        obj: jni::objects::JObject<'local>,
    ) -> core::result::Result<Self, JNIError> {
        match crate::conversion::option_convert::i32_from_jni(env, obj) {
            Ok(Some(v)) => Ok(v),
            Ok(None) => Err(JNIError::runtime_error(String::from_str("The value is null"))),
            Err(e) => Err(e),
        }
    }
}

impl IntoJNI for i32 {
    fn into_jni<'a>(
        self,
        env: &mut jni::JNIEnv<'a>,
    ) -> core::result::Result<jni::objects::JObject<'a>, JNIError> {
        crate::conversion::option_convert::i32_into_jni(env, Some(self))
    }
}

impl<'local> FromJNI<'local> for Option<i32> {
    fn from_jni(
        env: &mut jni::JNIEnv<'local>,
        obj: jni::objects::JObject<'local>,
    ) -> core::result::Result<Self, JNIError> {
        crate::conversion::option_convert::i32_from_jni(env, obj)
    }
}

impl IntoJNI for Option<i32> {
    fn into_jni<'a>(
        self,
        env: &mut jni::JNIEnv<'a>,
    ) -> core::result::Result<jni::objects::JObject<'a>, JNIError> {
        crate::conversion::option_convert::i32_into_jni(env, self)
    }
}

impl<'local> FromJNI<'local> for i64 {
    /// Reads a non-null boxed value; a null reference is an error here.
    fn from_jni(
        env: &mut jni::JNIEnv<'local>,
        obj: jni::objects::JObject<'local>,
    ) -> core::result::Result<Self, JNIError> {
        match crate::conversion::option_convert::i64_from_jni(env, obj) {
            Ok(Some(v)) => Ok(v),
            Ok(None) => Err(JNIError::runtime_error(String::from_str("The value is null"))),
            Err(e) => Err(e),
        }
    }
}

impl IntoJNI for i64 {
    fn into_jni<'a>(
        self,
        env: &mut jni::JNIEnv<'a>,
    ) -> core::result::Result<jni::objects::JObject<'a>, JNIError> {
        crate::conversion::option_convert::i64_into_jni(env, Some(self))
    }
}

impl<'local> FromJNI<'local> for Option<i64> {
    fn from_jni(
        env: &mut jni::JNIEnv<'local>,
        obj: jni::objects::JObject<'local>,
    ) -> core::result::Result<Self, JNIError> {
        crate::conversion::option_convert::i64_from_jni(env, obj)
    }
}

impl IntoJNI for Option<i64> {
    fn into_jni<'a>(
        self,
        env: &mut jni::JNIEnv<'a>,
    ) -> core::result::Result<jni::objects::JObject<'a>, JNIError> {
        crate::conversion::option_convert::i64_into_jni(env, self)
    }
}

impl<'local> FromJNI<'local> for bool {
    /// Reads a non-null boxed value; a null reference is an error here.
    fn from_jni(
        env: &mut jni::JNIEnv<'local>,
        obj: jni::objects::JObject<'local>,
    ) -> core::result::Result<Self, JNIError> {
        match crate::conversion::option_convert::bool_from_jni(env, obj) {
            Ok(Some(v)) => Ok(v),
            Ok(None) => Err(JNIError::runtime_error(String::from_str("The value is null"))),
            Err(e) => Err(e),
        }
    }
}

impl IntoJNI for bool {
    fn into_jni<'a>(
        self,
        env: &mut jni::JNIEnv<'a>,
    ) -> core::result::Result<jni::objects::JObject<'a>, JNIError> {
        crate::conversion::option_convert::bool_into_jni(env, Some(self))
    }
}

impl<'local> FromJNI<'local> for Option<bool> {
    fn from_jni(
        env: &mut jni::JNIEnv<'local>,
        obj: jni::objects::JObject<'local>,
    ) -> core::result::Result<Self, JNIError> {
        crate::conversion::option_convert::bool_from_jni(env, obj)
    }
}

impl IntoJNI for Option<bool> {
    fn into_jni<'a>(
        self,
        env: &mut jni::JNIEnv<'a>,
    ) -> core::result::Result<jni::objects::JObject<'a>, JNIError> {
        crate::conversion::option_convert::bool_into_jni(env, self)
    }
}

impl<'local> FromJNI<'local> for i16 {
    /// Reads a non-null boxed value; a null reference is an error here.
    fn from_jni(
        env: &mut jni::JNIEnv<'local>,
        obj: jni::objects::JObject<'local>,
    ) -> core::result::Result<Self, JNIError> {
        match crate::conversion::option_convert::i16_from_jni(env, obj) {
            Ok(Some(v)) => Ok(v),
            Ok(None) => Err(JNIError::runtime_error(String::from_str("The value is null"))),
            Err(e) => Err(e),
        }
    }
}

impl IntoJNI for i16 {
    fn into_jni<'a>(
        self,
        env: &mut jni::JNIEnv<'a>,
    ) -> core::result::Result<jni::objects::JObject<'a>, JNIError> {
        crate::conversion::option_convert::i16_into_jni(env, Some(self))
    }
}

impl<'local> FromJNI<'local> for Option<i16> {
    fn from_jni(
        env: &mut jni::JNIEnv<'local>,
        obj: jni::objects::JObject<'local>,
    ) -> core::result::Result<Self, JNIError> {
        crate::conversion::option_convert::i16_from_jni(env, obj)
    }
}

impl IntoJNI for Option<i16> {
    fn into_jni<'a>(
        self,
        env: &mut jni::JNIEnv<'a>,
    ) -> core::result::Result<jni::objects::JObject<'a>, JNIError> {
        crate::conversion::option_convert::i16_into_jni(env, self)
    }
}

impl<'local> FromJNI<'local> for u16 {
    /// Reads a non-null boxed value; a null reference is an error here.
    fn from_jni(
        env: &mut jni::JNIEnv<'local>,
        obj: jni::objects::JObject<'local>,
    ) -> core::result::Result<Self, JNIError> {
        match crate::conversion::option_convert::u16_from_jni(env, obj) {
            Ok(Some(v)) => Ok(v),
            Ok(None) => Err(JNIError::runtime_error(String::from_str("The value is null"))),
            Err(e) => Err(e),
        }
    }
}

impl IntoJNI for u16 {
    fn into_jni<'a>(
        self,
        env: &mut jni::JNIEnv<'a>,
    ) -> core::result::Result<jni::objects::JObject<'a>, JNIError> {
        crate::conversion::option_convert::u16_into_jni(env, Some(self))
    }
}

impl<'local> FromJNI<'local> for Option<u16> {
    fn from_jni(
        env: &mut jni::JNIEnv<'local>,
        obj: jni::objects::JObject<'local>,
    ) -> core::result::Result<Self, JNIError> {
        crate::conversion::option_convert::u16_from_jni(env, obj)
    }
}

impl IntoJNI for Option<u16> {
    fn into_jni<'a>(
        self,
        env: &mut jni::JNIEnv<'a>,
    ) -> core::result::Result<jni::objects::JObject<'a>, JNIError> {
        crate::conversion::option_convert::u16_into_jni(env, self)
    }
}

impl<'local> FromJNI<'local> for i8 {
    /// Reads a non-null boxed value; a null reference is an error here.
    fn from_jni(
        env: &mut jni::JNIEnv<'local>,
        obj: jni::objects::JObject<'local>,
    ) -> core::result::Result<Self, JNIError> {
        match crate::conversion::option_convert::i8_from_jni(env, obj) {
            Ok(Some(v)) => Ok(v),
            Ok(None) => Err(JNIError::runtime_error(String::from_str("The value is null"))),
            Err(e) => Err(e),
        }
    }
}

impl IntoJNI for i8 {
    fn into_jni<'a>(
        self,
        env: &mut jni::JNIEnv<'a>,
    ) -> core::result::Result<jni::objects::JObject<'a>, JNIError> {
        crate::conversion::option_convert::i8_into_jni(env, Some(self))
    }
}

impl<'local> FromJNI<'local> for Option<i8> {
    fn from_jni(
        env: &mut jni::JNIEnv<'local>,
        obj: jni::objects::JObject<'local>,
    ) -> core::result::Result<Self, JNIError> {
        crate::conversion::option_convert::i8_from_jni(env, obj)
    }
}

impl IntoJNI for Option<i8> {
    fn into_jni<'a>(
        self,
        env: &mut jni::JNIEnv<'a>,
    ) -> core::result::Result<jni::objects::JObject<'a>, JNIError> {
        crate::conversion::option_convert::i8_into_jni(env, self)
    }
}

} // verus!
