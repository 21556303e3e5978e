//! The fixed Rust text fragments of the bridge generator: receiver
//! resolution with the zero-handle check, the external bridge name, the
//! underlying call, the destructor bridge and the type-hash bridge.
use vstd::prelude::*;

verus! {

use vstd::string::StringExecFns;

/// The receiver-resolution prelude of an instance bridge: reads the `ptr`
/// field, rejects a zero handle by raising a null-pointer error and
/// returning `ret_val`, and otherwise reinterprets the handle as a shared or
/// exclusive reference to `struct_name`.
pub open spec fn spec_this(struct_name: Seq<char>, ret_val: Seq<char>, is_mut: bool) -> Seq<char> {
    "let this = match env.get_field(object, \"ptr\", \"J\").and_then(|e| e.j()).into_jni_result().and_then(|ptr| if ptr == 0 { Err(jni_bindgen::errors::JNIError::new(String::from(\"The pointer is null\"), Some(jni_bindgen::errors::ErrorClass::NullPointer))) } else { Ok(unsafe { "@
        + (if is_mut {
        "&mut *(ptr as *mut "@
    } else {
        "&*(ptr as *const "@
    }) + struct_name + ") }) }) { Ok(this) => this, Err(e) => { e.throw(&mut env); return "@
        + ret_val + "; } };"@
}

/// Emits the receiver-resolution prelude.
pub fn this(struct_name: &str, ret_val: &str, is_mut: bool) -> (r: String)
    ensures
        r@ == spec_this(struct_name@, ret_val@, is_mut),
{
    let mut s = String::from_str(
        "let this = match env.get_field(object, \"ptr\", \"J\").and_then(|e| e.j()).into_jni_result().and_then(|ptr| if ptr == 0 { Err(jni_bindgen::errors::JNIError::new(String::from(\"The pointer is null\"), Some(jni_bindgen::errors::ErrorClass::NullPointer))) } else { Ok(unsafe { ",
    );
    if is_mut {
        s.append("&mut *(ptr as *mut ");
    } else {
        s.append("&*(ptr as *const ");
    }
    s.append(struct_name);
    s.append(") }) }) { Ok(this) => this, Err(e) => { e.throw(&mut env); return ");
    s.append(ret_val);
    s.append("; } };");
    s
}

/// The external name stem of every bridge function of one class: the fixed
/// prefix, the escaped namespace, the class name, and the encoded `$`
/// separator before the inner native class name. The host runtime's dynamic
/// linker resolves symbols against exactly this text.
pub open spec fn spec_base_name(namespace: Seq<char>, struct_name: Seq<char>) -> Seq<char> {
    "Java_"@ + namespace + "_"@ + struct_name + "_00024"@ + struct_name + "Native"@
}

/// Builds the external name stem.
pub fn base_name(namespace: &str, struct_name: &str) -> (r: String)
    ensures
        r@ == spec_base_name(namespace@, struct_name@),
{
    let mut s = String::from_str("Java_");
    s.append(namespace);
    s.append("_");
    s.append(struct_name);
    s.append("_00024");
    s.append(struct_name);
    s.append("Native");
    s
}

/// The underlying native call: through the resolved receiver for instance
/// methods, through the type's path for static ones, binding `res` where a
/// value is returned.
pub open spec fn spec_call(
    has_self: bool,
    has_ret: bool,
    method_name: Seq<char>,
    struct_name: Seq<char>,
    call_args: Seq<char>,
) -> Seq<char> {
    if has_self && has_ret {
        "let res = this."@ + method_name + "("@ + call_args + ")"@
    } else if has_self {
        "this."@ + method_name + "("@ + call_args + ")"@
    } else if has_ret {
        "let res = "@ + struct_name + "::"@ + method_name + "("@ + call_args + ")"@
    } else {
        struct_name + "::"@ + method_name + "("@ + call_args + ")"@
    }
}

/// Emits the underlying native call.
pub fn call(
    has_self: bool,
    has_ret: bool,
    method_name: &str,
    struct_name: &str,
    call_args: &str,
) -> (r: String)
    ensures
        r@ == spec_call(has_self, has_ret, method_name@, struct_name@, call_args@),
{
    let mut s = if has_self && has_ret {
        String::from_str("let res = this.")
    } else if has_self {
        String::from_str("this.")
    } else if has_ret {
        let mut t = String::from_str("let res = ");
        t.append(struct_name);
        t.append("::");
        t
    } else {
        let mut t = String::from_str(struct_name);
        t.append("::");
        t
    };
    s.append(method_name);
    s.append("(");
    s.append(call_args);
    s.append(")");
    s
}

/// The destructor bridge of a class: reclaims and drops the boxed native
/// value behind a non-zero handle; a zero handle is a silent no-op.
pub open spec fn spec_drop_struct(base_name: Seq<char>, struct_name: Seq<char>) -> Seq<char> {
    "#[no_mangle]\npub extern \"system\" fn "@ + base_name
        + "_drop<'local>(_env: jni::JNIEnv<'local>, _class: jni::objects::JClass<'local>, ptr: jni::sys::jlong) { unsafe { if ptr != 0 { drop(Box::from_raw(ptr as *mut "@
        + struct_name + ")); } } }"@
}

/// Emits the destructor bridge.
pub fn drop_struct(base_name: &str, struct_name: &str) -> (r: String)
    ensures
        r@ == spec_drop_struct(base_name@, struct_name@),
{
    let mut s = String::from_str("#[no_mangle]\npub extern \"system\" fn ");
    s.append(base_name);
    s.append(
        "_drop<'local>(_env: jni::JNIEnv<'local>, _class: jni::objects::JClass<'local>, ptr: jni::sys::jlong) { unsafe { if ptr != 0 { drop(Box::from_raw(ptr as *mut ",
    );
    s.append(struct_name);
    s.append(")); } } }");
    s
}

/// The type-hash bridge of a class: a stable hash of the native type's
/// identity, compared before dereferencing a handle of this class.
pub open spec fn spec_get_type_hash(base_name: Seq<char>, struct_name: Seq<char>) -> Seq<char> {
    "#[no_mangle]\npub extern \"system\" fn "@ + base_name
        + "_getTypeHash<'local>(_env: jni::JNIEnv<'local>, _class: jni::objects::JClass<'local>) -> jni::sys::jlong { use std::hash::{Hash, Hasher}; let mut hasher = std::collections::hash_map::DefaultHasher::new(); std::any::TypeId::of::<"@
        + struct_name + ">().hash(&mut hasher); hasher.finish() as jni::sys::jlong }"@
}

/// Emits the type-hash bridge.
pub fn get_type_hash(base_name: &str, struct_name: &str) -> (r: String)
    ensures
        r@ == spec_get_type_hash(base_name@, struct_name@),
{
    let mut s = String::from_str("#[no_mangle]\npub extern \"system\" fn ");
    s.append(base_name);
    s.append(
        "_getTypeHash<'local>(_env: jni::JNIEnv<'local>, _class: jni::objects::JClass<'local>) -> jni::sys::jlong { use std::hash::{Hash, Hasher}; let mut hasher = std::collections::hash_map::DefaultHasher::new(); std::any::TypeId::of::<",
    );
    s.append(struct_name);
    s.append(">().hash(&mut hasher); hasher.finish() as jni::sys::jlong }");
    s
}

} // verus!
