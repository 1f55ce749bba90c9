//! What a model tells the persistence layer about itself.

use crate::text::str_eq;
use vstd::prelude::*;

verus! {

/// The semantic type of a model field, before any dialect turns it into a
/// column type.
#[derive(Debug, Clone, Copy, PartialEq, Eq, Structural)]
pub enum FieldType {
    Text,
    Integer,
    BigInt,
    Numeric,
    Boolean,
    JsonB,
    Timestamp,
}

/// The semantic type of a field by the name of its Rust type: text for
/// `String`, big integers for the 64-bit integer types, integers for the
/// narrower ones, numbers for the floats, booleans for `bool`, and text for
/// every other type.
pub open spec fn field_type_named(rust_type: Seq<char>) -> FieldType {
    if rust_type == "String"@ {
        FieldType::Text
    } else if rust_type == "i64"@ || rust_type == "u64"@ {
        FieldType::BigInt
    } else if rust_type == "i32"@ || rust_type == "i16"@ || rust_type == "i8"@ || rust_type
        == "u32"@ || rust_type == "u16"@ || rust_type == "u8"@ {
        FieldType::Integer
    } else if rust_type == "f64"@ || rust_type == "f32"@ {
        FieldType::Numeric
    } else if rust_type == "bool"@ {
        FieldType::Boolean
    } else {
        FieldType::Text
    }
}

impl FieldType {
    /// The semantic type of a field by the name of its Rust type. For an
    /// optional field or a list, the name is that of the type within.
    pub fn of_rust_type(rust_type: &str) -> (t: Self)
        ensures
            t == field_type_named(rust_type@),
    {
        if str_eq(rust_type, "String") {
            FieldType::Text
        } else if str_eq(rust_type, "i64") || str_eq(rust_type, "u64") {
            FieldType::BigInt
        } else if str_eq(rust_type, "i32") || str_eq(rust_type, "i16") || str_eq(rust_type, "i8")
            || str_eq(rust_type, "u32") || str_eq(rust_type, "u16") || str_eq(rust_type, "u8") {
            FieldType::Integer
        } else if str_eq(rust_type, "f64") || str_eq(rust_type, "f32") {
            FieldType::Numeric
        } else if str_eq(rust_type, "bool") {
            FieldType::Boolean
        } else {
            FieldType::Text
        }
    }
}

} // verus!
