use vstd::prelude::*;

verus! {

/// The error domains an operation of this library can fail in.
#[derive(Clone, Copy, Debug, PartialEq, Eq, Structural)]
pub enum Error {
    ConfigurationError,
    CertificateError,
    KeychainError,
}

/// The platform offers no configuration directory.
#[derive(Clone, Copy, Debug, PartialEq, Eq, Structural)]
pub struct ConfigurationDirNotFound;

/// No profile of the given name is registered.
#[derive(Clone, Debug)]
pub struct ProfileNotFound(pub String);

impl Error {
    /// The sentence that describes the error to an operator.
    pub fn message(&self) -> (r: &'static str)
        ensures
            *self == Error::ConfigurationError ==> r@ == "Unexpected error related to the configuration"@,
            *self == Error::CertificateError ==> r@ == "Unexpected error related to the certificate"@,
            *self == Error::KeychainError ==> r@ == "Unexpected error related to the keychain"@,
    {
        match self {
            Error::ConfigurationError => "Unexpected error related to the configuration",
            Error::CertificateError => "Unexpected error related to the certificate",
            Error::KeychainError => "Unexpected error related to the keychain",
        }
    }
}

} // verus!
