//! The error of the persistence layer: what went wrong, by kind, with a
//! message. Messages name tables, columns and counts, never row data.

use crate::codec::header::{CodecError, ElementType};
use crate::migrations::model::MigrationError;
use vstd::prelude::*;
use vstd::string::*;

verus! {

/// What went wrong.
#[derive(Debug)]
pub enum Error {
    /// The database could not be reached.
    Connection(String),
    /// A statement failed.
    Sql(String),
    /// A value could not be turned into or made from its stored form.
    Serialization(String),
    /// A record is not fit to be stored.
    Validation(String),
    /// There is no such record.
    NotFound(String),
    /// The pagination makes no sense.
    Pagination(String),
    /// A query could not be built or read.
    Query(String),
    /// A blob could not be made or read.
    AnyhowError(String),
    /// A migration failed.
    DatabaseError(String),
    /// Something else.
    Generic(String),
    /// The settings are wrong.
    Config(String),
    /// An operation on records failed.
    Operations(String),
}

/// The name of an element type in a message.
pub open spec fn element_name(ty: ElementType) -> Seq<char> {
    match ty {
        ElementType::I64 => "i64"@,
        ElementType::U64 => "u64"@,
        ElementType::I32 => "i32"@,
        ElementType::U32 => "u32"@,
        ElementType::F64 => "f64"@,
        ElementType::F32 => "f32"@,
        ElementType::Bytes => "raw bytes"@,
    }
}

/// The message of a codec error.
pub open spec fn codec_message(e: CodecError) -> Seq<char> {
    match e {
        CodecError::TooShort => "blob too small"@,
        CodecError::BadMagic => "bad magic"@,
        CodecError::UnsupportedVersion => "bad version"@,
        CodecError::UnsupportedMethod => "unsupported codec"@,
        CodecError::UnsupportedType(ty) => "unsupported type, expected "@ + element_name(ty),
        CodecError::Decompress => "lz4 decompress failed"@,
        CodecError::Varint => "varint decode failed"@,
        CodecError::LengthMismatch => "decompressed length mismatch"@,
        CodecError::PayloadTooLarge => "payload too large"@,
    }
}

/// The message of a codec error.
pub fn codec_error_message(e: &CodecError) -> (s: String)
    ensures
        s@ == codec_message(*e),
{
    match e {
        CodecError::TooShort => "blob too small".to_owned(),
        CodecError::BadMagic => "bad magic".to_owned(),
        CodecError::UnsupportedVersion => "bad version".to_owned(),
        CodecError::UnsupportedMethod => "unsupported codec".to_owned(),
        CodecError::UnsupportedType(ty) => {
            let mut s = "unsupported type, expected ".to_owned();
            s.append(
                match ty {
                    ElementType::I64 => "i64",
                    ElementType::U64 => "u64",
                    ElementType::I32 => "i32",
                    ElementType::U32 => "u32",
                    ElementType::F64 => "f64",
                    ElementType::F32 => "f32",
                    ElementType::Bytes => "raw bytes",
                },
            );
            s
        },
        CodecError::Decompress => "lz4 decompress failed".to_owned(),
        CodecError::Varint => "varint decode failed".to_owned(),
        CodecError::LengthMismatch => "decompressed length mismatch".to_owned(),
        CodecError::PayloadTooLarge => "payload too large".to_owned(),
    }
}

impl Error {
    /// What the message of an error begins with, by its kind.
    pub open spec fn prefix(self) -> Seq<char> {
        match self {
            Error::Connection(_) => "Connection error: "@,
            Error::Sql(_) => "SQL error: "@,
            Error::Serialization(_) => "Serialization error: "@,
            Error::Validation(_) => "Validation error: "@,
            Error::NotFound(_) => "Not found: "@,
            Error::Pagination(_) => "Pagination error: "@,
            Error::Query(_) => "Query error: "@,
            Error::AnyhowError(_) => "Anyhow error: "@,
            Error::DatabaseError(_) => "Database error: "@,
            Error::Generic(_) => "Error: "@,
            Error::Config(_) => "Configuration error: "@,
            Error::Operations(_) => "Operations error: "@,
        }
    }

    /// The message that an error carries.
    pub open spec fn message(self) -> Seq<char> {
        match self {
            Error::Connection(m) => m@,
            Error::Sql(m) => m@,
            Error::Serialization(m) => m@,
            Error::Validation(m) => m@,
            Error::NotFound(m) => m@,
            Error::Pagination(m) => m@,
            Error::Query(m) => m@,
            Error::AnyhowError(m) => m@,
            Error::DatabaseError(m) => m@,
            Error::Generic(m) => m@,
            Error::Config(m) => m@,
            Error::Operations(m) => m@,
        }
    }

    /// The error as text: its kind, then its message.
    pub fn to_string(&self) -> (s: String)
        ensures
            s@ == self.prefix() + self.message(),
    {
        let (prefix, message) = match self {
            Error::Connection(m) => ("Connection error: ", m),
            Error::Sql(m) => ("SQL error: ", m),
            Error::Serialization(m) => ("Serialization error: ", m),
            Error::Validation(m) => ("Validation error: ", m),
            Error::NotFound(m) => ("Not found: ", m),
            Error::Pagination(m) => ("Pagination error: ", m),
            Error::Query(m) => ("Query error: ", m),
            Error::AnyhowError(m) => ("Anyhow error: ", m),
            Error::DatabaseError(m) => ("Database error: ", m),
            Error::Generic(m) => ("Error: ", m),
            Error::Config(m) => ("Configuration error: ", m),
            Error::Operations(m) => ("Operations error: ", m),
        };
        let mut s = prefix.to_owned();
        s.append(message.as_str());
        s
    }

    /// A failed migration as an error of the layer.
    pub fn from_migration(e: &MigrationError) -> (r: Self)
        ensures
            r matches Error::DatabaseError(m) && m@ == e.text(),
    {
        Error::DatabaseError(e.to_string())
    }

    /// A codec failure as an error of the layer.
    pub fn from_codec(e: &CodecError) -> (r: Self)
        ensures
            r matches Error::AnyhowError(m) && m@ == codec_message(*e),
    {
        Error::AnyhowError(codec_error_message(e))
    }
}

} // verus!
