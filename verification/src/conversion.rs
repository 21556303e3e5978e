//! The runtime conversions between Java values and native values.
pub mod object_convert;
pub mod option_convert;
