//! A generator for Java Native Interface bindings: a recursive classifier
//! that maps native type expressions onto a closed set of bridgeable Java
//! type categories, and two coupled emitters that synthesize, from one
//! shared method model, the native bridge functions and the matching Java
//! declarations.
pub mod casing;
pub mod code;
pub mod conversion;
pub mod errors;
pub mod java_class;
pub mod java_interface;
pub mod java_method;
pub mod java_type;
pub mod jni_api;
pub mod laws;
pub mod objects;
pub mod quotes;
pub mod signature;
pub mod text;
pub mod traits;
pub mod type_expr;
