//! Error kinds of the storage layer, each with a human-readable description.
use vstd::prelude::*;

verus! {

/// Failure while computing or decoding a content hash.
#[derive(Debug, Clone, PartialEq, Eq)]
pub enum HashError {
    UnsupportedType,
    BadInputLength,
    UnknownCode,
    /// Any other failure, carried by its description.
    Other(String),
}

impl HashError {
    pub open spec fn spec_description(&self) -> Seq<char> {
        match self {
            HashError::UnsupportedType => "This type is not supported yet"@,
            HashError::BadInputLength => "Not matching input length"@,
            HashError::UnknownCode => "Found unknown code"@,
            HashError::Other(s) => s@,
        }
    }

    pub fn description(&self) -> (r: &str)
        ensures
            r@ == self.spec_description(),
    {
        match self {
            HashError::UnsupportedType => "This type is not supported yet",
            HashError::BadInputLength => "Not matching input length",
            HashError::UnknownCode => "Found unknown code",
            HashError::Other(s) => s.as_str(),
        }
    }
}

/// Failure while turning values into bytes or back.
#[derive(Debug, Clone, PartialEq, Eq)]
pub enum SerializerError {
    SerializationError(String),
    DeserializationError(String),
    Other(String),
}

impl SerializerError {
    pub open spec fn spec_description(&self) -> Seq<char> {
        match self {
            SerializerError::SerializationError(s) => s@,
            SerializerError::DeserializationError(s) => s@,
            SerializerError::Other(s) => s@,
        }
    }

    pub fn description(&self) -> (r: &str)
        ensures
            r@ == self.spec_description(),
    {
        match self {
            SerializerError::SerializationError(s) => s.as_str(),
            SerializerError::DeserializationError(s) => s.as_str(),
            SerializerError::Other(s) => s.as_str(),
        }
    }
}

/// Failure of a key-value store.
#[derive(Debug, Clone, PartialEq, Eq)]
pub enum StorageError {
    OutOfDiskSpace,
    InvalidKey,
    StringError(String),
}

impl StorageError {
    pub open spec fn spec_description(&self) -> Seq<char> {
        match self {
            StorageError::OutOfDiskSpace => "Run out of disk space"@,
            StorageError::InvalidKey => "The given key holds no value"@,
            StorageError::StringError(s) => s@,
        }
    }

    pub fn description(&self) -> (r: &str)
        ensures
            r@ == self.spec_description(),
    {
        match self {
            StorageError::OutOfDiskSpace => "Run out of disk space",
            StorageError::InvalidKey => "The given key holds no value",
            StorageError::StringError(s) => s.as_str(),
        }
    }
}

/// Failure of a string encoder or decoder.
#[derive(Debug, Clone, PartialEq, Eq)]
pub enum StringCoderError {
    Other(String),
}

impl StringCoderError {
    pub open spec fn spec_description(&self) -> Seq<char> {
        match self {
            StringCoderError::Other(s) => s@,
        }
    }

    pub fn description(&self) -> (r: &str)
        ensures
            r@ == self.spec_description(),
    {
        match self {
            StringCoderError::Other(s) => s.as_str(),
        }
    }
}

/// Failure of a hash space: content-addressed storage reached through links.
#[derive(Debug, Clone, PartialEq, Eq)]
pub enum HashSpaceError {
    HashError(HashError),
    StorageError(StorageError),
    StringCoderError(StringCoderError),
    LinkFormatError(String),
    UnknownHashSpace(String),
    UnsupportedHashSpace(String),
    Other(String),
}

impl HashSpaceError {
    /// The description of a wrapped error is the wrapped error's own.
    pub open spec fn spec_description(&self) -> Seq<char> {
        match self {
            HashSpaceError::HashError(e) => e.spec_description(),
            HashSpaceError::StorageError(e) => e.spec_description(),
            HashSpaceError::StringCoderError(e) => e.spec_description(),
            HashSpaceError::LinkFormatError(s) => s@,
            HashSpaceError::UnknownHashSpace(s) => s@,
            HashSpaceError::UnsupportedHashSpace(s) => s@,
            HashSpaceError::Other(s) => s@,
        }
    }

    pub fn description(&self) -> (r: &str)
        ensures
            r@ == self.spec_description(),
    {
        match self {
            HashSpaceError::HashError(e) => e.description(),
            HashSpaceError::StorageError(e) => e.description(),
            HashSpaceError::StringCoderError(e) => e.description(),
            HashSpaceError::LinkFormatError(s) => s.as_str(),
            HashSpaceError::UnknownHashSpace(s) => s.as_str(),
            HashSpaceError::UnsupportedHashSpace(s) => s.as_str(),
            HashSpaceError::Other(s) => s.as_str(),
        }
    }
}

/// Failure of an address format parser.
#[derive(Debug, Clone, PartialEq, Eq)]
pub enum FormatParserError {
    Unspecified,
}

/// Failure to resolve an address into the value it names.
#[derive(Debug, Clone, PartialEq, Eq)]
pub enum AddressResolutionError {
    HashSpaceError(HashSpaceError),
    AttributeNotFound(String),
    WrongAttributeType,
    UnknownFormat(String),
    FormatParserError(FormatParserError),
}

} // verus!
