//! The failures the pipeline can surface to the delivery layer.

use vstd::prelude::*;

verus! {

/// Why a registration response could not be turned into a configuration.
#[derive(Debug, Clone, PartialEq, Eq, Structural)]
pub enum MalformedResponseError {
    /// The body is not syntactically valid JSON.
    InvalidJson,
    /// A required field is absent or of the wrong type.
    MissingField,
    /// The peers array is present but holds no entry.
    NoPeers,
}

impl MalformedResponseError {
    /// The text that `message` returns for this variant.
    pub open spec fn spec_message(self) -> Seq<char> {
        match self {
            MalformedResponseError::InvalidJson => "response body is not valid JSON"@,
            MalformedResponseError::MissingField => "required field missing from response"@,
            MalformedResponseError::NoPeers => "no peers found in configuration"@,
        }
    }

    /// A short description, in place of a `Display` impl.
    pub fn message(&self) -> (r: String)
        ensures
            r@ == self.spec_message(),
    {
        match self {
            MalformedResponseError::InvalidJson => "response body is not valid JSON".to_owned(),
            MalformedResponseError::MissingField => "required field missing from response".to_owned(),
            MalformedResponseError::NoPeers => "no peers found in configuration".to_owned(),
        }
    }
}

/// The registration call could not be completed at the transport level.
#[derive(Debug, Clone, PartialEq, Eq)]
pub struct TransportError {
    /// What the transport reported: a DNS, connection or TLS failure.
    pub message: String,
}

/// Every failure of a pipeline run, as handed to the delivery layer.
#[derive(Debug, Clone, PartialEq, Eq)]
pub enum WarpError {
    /// The secure random source could not produce key material.
    KeyGeneration,
    /// The registration call did not complete.
    Transport(TransportError),
    /// The registration response did not have the expected shape.
    MalformedResponse(MalformedResponseError),
    /// Rendering failed; never produced, kept for interface symmetry.
    Render,
}

impl WarpError {
    /// The text that `message` returns for this variant.
    pub open spec fn spec_message(self) -> Seq<char> {
        match self {
            WarpError::KeyGeneration => "key generation failed"@,
            WarpError::Transport(e) => e.message@,
            WarpError::MalformedResponse(m) => m.spec_message(),
            WarpError::Render => "rendering failed"@,
        }
    }

    /// A short description, in place of a `Display` impl.
    pub fn message(&self) -> (r: String)
        ensures
            r@ == self.spec_message(),
    {
        match self {
            WarpError::KeyGeneration => "key generation failed".to_owned(),
            WarpError::Transport(e) => e.message.clone(),
            WarpError::MalformedResponse(m) => m.message(),
            WarpError::Render => "rendering failed".to_owned(),
        }
    }
}

} // verus!
