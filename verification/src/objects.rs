//! The object-model traits of the runtime half.
pub mod traits;
