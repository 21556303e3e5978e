//! The trusted surface of the jni crate: the runtime types the conversion
//! helpers carry, and one wrapper per runtime call they make. Everything
//! here is believed, not proved; each wrapper's comment names what it relies
//! on.
use vstd::prelude::*;

verus! {

use crate::errors::{ErrorClass, JNIError};

#[verifier::external_type_specification]
#[verifier::external_body]
pub struct ExJNIEnv<'local>(jni::JNIEnv<'local>);

#[verifier::external_type_specification]
#[verifier::external_body]
pub struct ExJObjectRaw(jni::sys::_jobject);

#[verifier::external_type_specification]
#[verifier::external_body]
pub struct ExJObject<'local>(jni::objects::JObject<'local>);

#[verifier::external_type_specification]
#[verifier::external_body]
pub struct ExJString<'local>(jni::objects::JString<'local>);

#[verifier::external_type_specification]
#[verifier::external_body]
pub struct ExJniError(jni::errors::Error);

#[verifier::external_type_specification]
#[verifier::external_body]
pub struct ExJList<'local, 'other_local_1: 'obj_ref, 'obj_ref>(
    jni::objects::JList<'local, 'other_local_1, 'obj_ref>,
);

#[verifier::external_type_specification]
#[verifier::external_body]
pub struct ExJMap<'local, 'other_local_1: 'obj_ref, 'obj_ref>(
    jni::objects::JMap<'local, 'other_local_1, 'obj_ref>,
);

#[verifier::external_type_specification]
#[verifier::external_body]
pub struct ExJMapIter<'map, 'local, 'other_local_1: 'obj_ref, 'obj_ref, 'iter_local>(
    jni::objects::JMapIter<'map, 'local, 'other_local_1, 'obj_ref, 'iter_local>,
);

/// Whether a Java object reference is the null reference; a function of the
/// reference value alone.
pub uninterp spec fn obj_is_null(o: jni::objects::JObject) -> bool;

/// Relies on JObject::as_raw: a reference is null exactly when its raw
/// handle is the null pointer.
#[verifier::external_body]
pub(crate) fn is_null_obj(o: &jni::objects::JObject) -> (r: bool)
    ensures
        r == obj_is_null(*o),
{
    o.as_raw().is_null()
}

/// Relies on JObject::null: yields the null reference.
#[verifier::external_body]
pub(crate) fn null_obj() -> (r: jni::objects::JObject<'static>)
    ensures
        obj_is_null(r),
{
    jni::objects::JObject::null()
}

/// Relies on JNIEnv::throw_new: registers a pending exception of the given
/// class with the given message in the Java runtime; the outcome is
/// discarded, as the bridge returns its sentinel either way.
#[verifier::external_body]
pub(crate) fn env_throw_new(env: &mut jni::JNIEnv, class: &str, msg: &str) {
    let _ = env.throw_new(class, msg);
}

/// Relies on JNIEnv::new_string: encodes a native string into a fresh Java
/// string object; on success the reference is non-null, since the call
/// reports a null result as an error.
#[verifier::external_body]
pub(crate) fn env_new_string<'local>(env: &jni::JNIEnv<'local>, s: &str) -> (r: Result<
    jni::objects::JObject<'local>,
    jni::errors::Error,
>)
    ensures
        r matches Ok(o) ==> !obj_is_null(o),
{
    env.new_string(s).map(jni::objects::JObject::from)
}

/// Relies on JNIEnv::get_string: checks that the object is a Java string
/// and decodes it into a native string.
#[verifier::external_body]
pub(crate) fn env_get_string(env: &mut jni::JNIEnv, o: jni::objects::JObject) -> (r: Result<
    String,
    jni::errors::Error,
>) {
    env.get_string(&jni::objects::JString::from(o)).map(|s| s.into())
}

/// Relies on jni's Error only as a value: renders its message and keeps
/// the exception class that each variant maps onto.
#[verifier::external_body]
pub(crate) fn jni_error_to_error(e: jni::errors::Error) -> (r: JNIError)
    ensures
        r.class is Some,
{
    let class = match &e {
        jni::errors::Error::MethodNotFound { .. }
        | jni::errors::Error::JavaVMMethodNotFound(..)
        | jni::errors::Error::JNIEnvMethodNotFound(..) => ErrorClass::NoSuchMethod,
        jni::errors::Error::NullPtr(..) | jni::errors::Error::NullDeref(..) => (
        ErrorClass::NullPointer),
        jni::errors::Error::FieldNotFound { .. } => ErrorClass::NoSuchField,
        jni::errors::Error::InvalidArgList(..) => ErrorClass::IllegalArgument,
        _ => ErrorClass::Runtime,
    };
    JNIError { message: e.to_string(), class: Some(class) }
}

/// Relies on JNIEnv::new_object with `java/util/ArrayList`: yields a fresh
/// empty Java list; on success the reference is non-null, since the call
/// reports a null result as an error.
#[verifier::external_body]
pub(crate) fn env_new_array_list<'local>(env: &mut jni::JNIEnv<'local>) -> (r: Result<
    jni::objects::JObject<'local>,
    jni::errors::Error,
>)
    ensures
        r matches Ok(o) ==> !obj_is_null(o),
{
    env.new_object("java/util/ArrayList", "()V", &[])
}

/// Relies on JNIEnv::new_object with `java/util/HashMap`: yields a fresh
/// empty Java map; on success the reference is non-null, since the call
/// reports a null result as an error.
#[verifier::external_body]
pub(crate) fn env_new_hash_map<'local>(env: &mut jni::JNIEnv<'local>) -> (r: Result<
    jni::objects::JObject<'local>,
    jni::errors::Error,
>)
    ensures
        r matches Ok(o) ==> !obj_is_null(o),
{
    env.new_object("java/util/HashMap", "()V", &[])
}

/// Relies on JNIEnv::call_method with `add`: appends one element to a Java
/// list; the boolean result reports nothing a caller here needs.
#[verifier::external_body]
pub(crate) fn env_list_add(
    env: &mut jni::JNIEnv,
    list: &jni::objects::JObject,
    value: &jni::objects::JObject,
) -> (r: Result<(), jni::errors::Error>) {
    env.call_method(list, "add", "(Ljava/lang/Object;)Z", &[value.into()]).map(|_| ())
}

/// Relies on JNIEnv::call_method with `put`: inserts one entry into a Java
/// map; the displaced previous value is discarded.
#[verifier::external_body]
pub(crate) fn env_map_put(
    env: &mut jni::JNIEnv,
    map: &jni::objects::JObject,
    key: &jni::objects::JObject,
    value: &jni::objects::JObject,
) -> (r: Result<(), jni::errors::Error>) {
    env.call_method(
        map,
        "put",
        "(Ljava/lang/Object;Ljava/lang/Object;)Ljava/lang/Object;",
        &[key.into(), value.into()],
    ).map(|_| ())
}

/// Relies on JNIEnv::get_list: casts the object to a Java list handle.
#[verifier::external_body]
pub(crate) fn env_get_list<'local, 'shared>(
    env: &mut jni::JNIEnv<'local>,
    obj: &'shared jni::objects::JObject<'shared>,
) -> (r: Result<jni::objects::JList<'local, 'shared, 'shared>, jni::errors::Error>) {
    env.get_list(obj)
}

/// Relies on JList::size: the list's length as Java reports it.
#[verifier::external_body]
pub(crate) fn env_list_size<'local, 'shared>(
    list: &jni::objects::JList<'local, 'shared, 'shared>,
    env: &mut jni::JNIEnv,
) -> (r: Result<i32, jni::errors::Error>) {
    list.size(env)
}

/// Relies on JList::get: the element at an index; `None` where the element
/// is the null reference, while an out-of-range index surfaces as an error.
#[verifier::external_body]
pub(crate) fn env_list_get<'local, 'shared, 'env_local>(
    list: &jni::objects::JList<'local, 'shared, 'shared>,
    env: &mut jni::JNIEnv<'env_local>,
    idx: i32,
) -> (r: Result<Option<jni::objects::JObject<'env_local>>, jni::errors::Error>) {
    list.get(env, idx)
}

/// Relies on JNIEnv::call_method with `size`: how many entries the map
/// reports.
#[verifier::external_body]
pub(crate) fn env_map_size(env: &mut jni::JNIEnv, map: &jni::objects::JObject) -> (r: Result<
    i32,
    jni::errors::Error,
>) {
    env.call_method(map, "size", "()I", &[]).and_then(|v| v.i())
}

/// Relies on JNIEnv::get_map: casts the object to a Java map handle.
#[verifier::external_body]
pub(crate) fn env_get_map<'local, 'shared>(
    env: &mut jni::JNIEnv<'local>,
    obj: &'shared jni::objects::JObject<'shared>,
) -> (r: Result<jni::objects::JMap<'local, 'shared, 'shared>, jni::errors::Error>) {
    env.get_map(obj)
}

/// Relies on JMap::iter: starts an iteration over the map's entries.
#[verifier::external_body]
pub(crate) fn env_map_iter<'map, 'local, 'shared, 'iter_local>(
    map: &'map jni::objects::JMap<'local, 'shared, 'shared>,
    env: &mut jni::JNIEnv<'iter_local>,
) -> (r: Result<
    jni::objects::JMapIter<'map, 'local, 'shared, 'shared, 'iter_local>,
    jni::errors::Error,
>) {
    map.iter(env)
}

/// Relies on JMapIter::next: the next key/value pair, or `None` past the
/// end.
#[verifier::external_body]
pub(crate) fn env_map_iter_next<'map, 'local, 'shared, 'iter_local, 'env_local>(
    it: &mut jni::objects::JMapIter<'map, 'local, 'shared, 'shared, 'iter_local>,
    env: &mut jni::JNIEnv<'env_local>,
) -> (r: Result<
    Option<(jni::objects::JObject<'env_local>, jni::objects::JObject<'env_local>)>,
    jni::errors::Error,
>) {
    it.next(env)
}

/// Relies on JNIEnv::new_local_ref: a fresh local reference to the same
/// Java object, bounded by this environment's lifetime.
#[verifier::external_body]
pub(crate) fn env_new_local_ref<'local>(
    env: &jni::JNIEnv<'local>,
    o: &jni::objects::JObject,
) -> (r: Result<jni::objects::JObject<'local>, jni::errors::Error>) {
    env.new_local_ref(o)
}

/// Relies on JString::from on an object reference: reinterprets the
/// reference as a Java string handle without checking the class; the caller
/// vouches for it.
#[verifier::external_body]
pub(crate) fn jstring_of<'a>(o: jni::objects::JObject<'a>) -> (r: jni::objects::JString<'a>) {
    jni::objects::JString::from(o)
}

/// Relies on JNIEnv::new_local_ref on a string handle: a fresh local
/// reference to the same Java string, bounded by this environment's
/// lifetime.
#[verifier::external_body]
pub(crate) fn env_new_local_ref_string<'local>(
    env: &jni::JNIEnv<'local>,
    o: &jni::objects::JString,
) -> (r: Result<jni::objects::JObject<'local>, jni::errors::Error>) {
    env.new_local_ref(o)
}

/// Relies on std's HashMap iteration: hands the owned entries out as a
/// vector, in the runtime's own order, which no caller may depend on.
#[verifier::external_body]
pub(crate) fn hashmap_entries<K, V>(m: std::collections::HashMap<K, V>) -> (r: Vec<(K, V)>) {
    m.into_iter().collect()
}

/// Relies on JNIEnv::call_method with `intValue`: unboxes a boxed integer.
#[verifier::external_body]
pub(crate) fn env_int_value(env: &mut jni::JNIEnv, o: &jni::objects::JObject) -> (r: Result<
    i32,
    jni::errors::Error,
>) {
    env.call_method(o, "intValue", "()I", &[]).and_then(|v| v.i())
}

/// Relies on JNIEnv::call_method with `longValue`: unboxes a boxed long.
#[verifier::external_body]
pub(crate) fn env_long_value(env: &mut jni::JNIEnv, o: &jni::objects::JObject) -> (r: Result<
    i64,
    jni::errors::Error,
>) {
    env.call_method(o, "longValue", "()J", &[]).and_then(|v| v.j())
}

/// Relies on JNIEnv::call_method with `booleanValue`: unboxes a boxed
/// boolean.
#[verifier::external_body]
pub(crate) fn env_bool_value(env: &mut jni::JNIEnv, o: &jni::objects::JObject) -> (r: Result<
    bool,
    jni::errors::Error,
>) {
    env.call_method(o, "booleanValue", "()Z", &[]).and_then(|v| v.z())
}

/// Relies on JNIEnv::call_method with `shortValue`: unboxes a boxed short.
#[verifier::external_body]
pub(crate) fn env_short_value(env: &mut jni::JNIEnv, o: &jni::objects::JObject) -> (r: Result<
    i16,
    jni::errors::Error,
>) {
    env.call_method(o, "shortValue", "()S", &[]).and_then(|v| v.s())
}

/// Relies on JNIEnv::call_method with `charValue`: unboxes a boxed
/// character.
#[verifier::external_body]
pub(crate) fn env_char_value(env: &mut jni::JNIEnv, o: &jni::objects::JObject) -> (r: Result<
    u16,
    jni::errors::Error,
>) {
    env.call_method(o, "charValue", "()C", &[]).and_then(|v| v.c())
}

/// Relies on JNIEnv::call_method with `byteValue`: unboxes a boxed byte.
#[verifier::external_body]
pub(crate) fn env_byte_value(env: &mut jni::JNIEnv, o: &jni::objects::JObject) -> (r: Result<
    i8,
    jni::errors::Error,
>) {
    env.call_method(o, "byteValue", "()B", &[]).and_then(|v| v.b())
}

/// Relies on JNIEnv::call_static_method with `Integer.valueOf`, which always
/// yields an instance, never null.
#[verifier::external_body]
pub(crate) fn env_box_int<'local>(env: &mut jni::JNIEnv<'local>, v: i32) -> (r: Result<
    jni::objects::JObject<'local>,
    jni::errors::Error,
>)
    ensures
        r matches Ok(o) ==> !obj_is_null(o),
{
    env.call_static_method("java/lang/Integer", "valueOf", "(I)Ljava/lang/Integer;", &[v.into()])
        .and_then(|v| v.l())
}

/// Relies on JNIEnv::call_static_method with `Long.valueOf`, which always
/// yields an instance, never null.
#[verifier::external_body]
pub(crate) fn env_box_long<'local>(env: &mut jni::JNIEnv<'local>, v: i64) -> (r: Result<
    jni::objects::JObject<'local>,
    jni::errors::Error,
>)
    ensures
        r matches Ok(o) ==> !obj_is_null(o),
{
    env.call_static_method("java/lang/Long", "valueOf", "(J)Ljava/lang/Long;", &[v.into()])
        .and_then(|v| v.l())
}

/// Relies on JNIEnv::call_static_method with `Boolean.valueOf`, which always
/// yields an instance, never null.
#[verifier::external_body]
pub(crate) fn env_box_bool<'local>(env: &mut jni::JNIEnv<'local>, v: bool) -> (r: Result<
    jni::objects::JObject<'local>,
    jni::errors::Error,
>)
    ensures
        r matches Ok(o) ==> !obj_is_null(o),
{
    env.call_static_method("java/lang/Boolean", "valueOf", "(Z)Ljava/lang/Boolean;", &[v.into()])
        .and_then(|v| v.l())
}

/// Relies on JNIEnv::call_static_method with `Short.valueOf`, which always
/// yields an instance, never null.
#[verifier::external_body]
pub(crate) fn env_box_short<'local>(env: &mut jni::JNIEnv<'local>, v: i16) -> (r: Result<
    jni::objects::JObject<'local>,
    jni::errors::Error,
>)
    ensures
        r matches Ok(o) ==> !obj_is_null(o),
{
    env.call_static_method("java/lang/Short", "valueOf", "(S)Ljava/lang/Short;", &[v.into()])
        .and_then(|v| v.l())
}

/// Relies on JNIEnv::call_static_method with `Character.valueOf`, which
/// always yields an instance, never null.
#[verifier::external_body]
pub(crate) fn env_box_char<'local>(env: &mut jni::JNIEnv<'local>, v: u16) -> (r: Result<
    jni::objects::JObject<'local>,
    jni::errors::Error,
>)
    ensures
        r matches Ok(o) ==> !obj_is_null(o),
{
    env.call_static_method(
        "java/lang/Character",
        "valueOf",
        "(C)Ljava/lang/Character;",
        &[v.into()],
    ).and_then(|v| v.l())
}

/// Relies on JNIEnv::call_static_method with `Byte.valueOf`, which always
/// yields an instance, never null.
#[verifier::external_body]
pub(crate) fn env_box_byte<'local>(env: &mut jni::JNIEnv<'local>, v: i8) -> (r: Result<
    jni::objects::JObject<'local>,
    jni::errors::Error,
>)
    ensures
        r matches Ok(o) ==> !obj_is_null(o),
{
    env.call_static_method("java/lang/Byte", "valueOf", "(B)Ljava/lang/Byte;", &[v.into()])
        .and_then(|v| v.l())
}

} // verus!
