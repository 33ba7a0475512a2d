//! The API version: its value, the errors of the version source, and the use
//! case that reads it.
use vstd::prelude::*;

verus! {

/// The version of the price API.
#[derive(Debug, Clone, PartialEq, Eq)]
pub struct Version {
    version: String,
}

impl View for Version {
    type V = Seq<char>;

    closed spec fn view(&self) -> Seq<char> {
        self.version@
    }
}

impl Version {
    pub fn new(version: String) -> (r: Version)
        ensures
            r@ == version@,
    {
        Version { version }
    }

    /// The version text, as the version is displayed.
    pub fn to_string(&self) -> (r: String)
        ensures
            r@ == self@,
    {
        self.version.clone()
    }
}

/// Failures of the version source.
#[derive(Debug, Clone, PartialEq, Eq)]
pub enum VersionError {
    NotFound,
    InvalidResponse(String),
    Unavailable(String),
}

/// The message a version error is displayed with.
pub open spec fn version_error_text(e: VersionError) -> Seq<char> {
    match e {
        VersionError::NotFound => "Version not found"@,
        VersionError::InvalidResponse(s) => "Version response is invalid: "@ + s@,
        VersionError::Unavailable(s) => "Version source is unavailable: "@ + s@,
    }
}

impl VersionError {
    /// The message this error is displayed with.
    pub fn to_string(&self) -> (r: String)
        ensures
            r@ == version_error_text(*self),
    {
        match self {
            VersionError::NotFound => String::from_str("Version not found"),
            VersionError::InvalidResponse(s) => {
                let mut r = String::from_str("Version response is invalid: ");
                r.append(s.as_str());
                r
            },
            VersionError::Unavailable(s) => {
                let mut r = String::from_str("Version source is unavailable: ");
                r.append(s.as_str());
                r
            },
        }
    }
}

/// The use case of reading the API version from a version source.
pub struct GetVersionUseCase<TVersionSource> {
    version_source: TVersionSource,
}

impl<TVersionSource> GetVersionUseCase<TVersionSource> {
    pub fn new(version_source: TVersionSource) -> (r: Self)
        ensures
            r.source() == version_source,
    {
        Self { version_source }
    }

    pub closed spec fn source(&self) -> TVersionSource {
        self.version_source
    }

    /// The version source the use case reads from.
    pub fn version_source(&self) -> (r: &TVersionSource)
        ensures
            *r == self.source(),
    {
        &self.version_source
    }
}

} // verus!
