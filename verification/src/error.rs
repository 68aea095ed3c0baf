//! The failure taxonomy of the pipeline. Failures before the per-statement
//! loop abort the whole invocation; failures inside it are reported for the
//! one statement and the batch goes on.

use vstd::prelude::*;

verus! {

/// Every way the pipeline can fail. The `String` carried by a variant
/// describes the particular occurrence (the source that could not be read,
/// the profile that was rejected, the transport's own message).
#[derive(Debug, Clone, PartialEq, Eq)]
pub enum QueryError {
    /// No local query service is configured; nothing can be attempted.
    NoLocalConfig,
    /// The query source (file, URL or stdin) could not be read.
    SourceUnavailable(String),
    /// The endpoint could not be derived from the local configuration.
    EndpointBuildError(String),
    /// One statement's round trip failed in transport.
    NetworkError(String),
    /// One statement's response did not match the expected shape.
    DecodeError(String),
    /// A profile other than `local` or `cluster` was requested.
    UnsupportedProfile(String),
    /// A recognized but unbuilt feature path was requested.
    NotImplemented(String),
}

impl QueryError {
    /// The user-facing description of this failure.
    pub open spec fn spec_message(&self) -> Seq<char> {
        match self {
            QueryError::NoLocalConfig => "no local query service is configured"@,
            QueryError::SourceUnavailable(d) => "cannot read query source: "@ + d@,
            QueryError::EndpointBuildError(d) => "cannot build query endpoint: "@ + d@,
            QueryError::NetworkError(d) => "cannot execute query: "@ + d@,
            QueryError::DecodeError(d) => "cannot decode query response: "@ + d@,
            QueryError::UnsupportedProfile(d) => "unsupported profile: "@ + d@,
            QueryError::NotImplemented(d) => "not implemented: "@ + d@,
        }
    }

    /// Renders the user-facing description.
    pub fn message(&self) -> (r: String)
        ensures
            r@ == self.spec_message(),
    {
        match self {
            QueryError::NoLocalConfig => String::from_str("no local query service is configured"),
            QueryError::SourceUnavailable(d) => {
                let mut m = String::from_str("cannot read query source: ");
                m.append(d.as_str());
                m
            },
            QueryError::EndpointBuildError(d) => {
                let mut m = String::from_str("cannot build query endpoint: ");
                m.append(d.as_str());
                m
            },
            QueryError::NetworkError(d) => {
                let mut m = String::from_str("cannot execute query: ");
                m.append(d.as_str());
                m
            },
            QueryError::DecodeError(d) => {
                let mut m = String::from_str("cannot decode query response: ");
                m.append(d.as_str());
                m
            },
            QueryError::UnsupportedProfile(d) => {
                let mut m = String::from_str("unsupported profile: ");
                m.append(d.as_str());
                m
            },
            QueryError::NotImplemented(d) => {
                let mut m = String::from_str("not implemented: ");
                m.append(d.as_str());
                m
            },
        }
    }
}

} // verus!
