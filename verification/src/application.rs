use vstd::prelude::*;
use crate::domain::DomainError;

verus! {

#[verifier::external_type_specification]
#[verifier::external_body]
pub struct ExAnyhowError(anyhow::Error);

/// Why a synchronisation failed.
#[derive(Debug)]
pub enum ApplicationError {
    /// A repository of projects, snapshots or issues failed.
    RepositoryError(anyhow::Error),
    /// The provider of issues failed.
    ProviderError { source_error: anyhow::Error },
    /// A rule of the domain was broken.
    DomainError(DomainError),
    /// The configuration is not usable.
    ConfigurationError(String),
    /// Data that the synchronisation needs is missing.
    ProcessingError(String),
    /// Something happened that the synchronisation does not expect.
    UnexpectedError(String),
}

} // verus!
