use vstd::prelude::*;

verus! {

/// What went wrong while making or encrypting a key.
#[derive(Clone, Copy, Debug, PartialEq, Eq, Structural)]
pub enum KeyError {
    /// The RSA key pair could not be generated.
    KeyGeneration,
    /// scrypt refuses the requested cost settings.
    InvalidScryptCost,
    /// A DER or PEM encoding step, or the assembly of the PBES2 parameters, failed.
    Encoding,
    /// Encrypting the key under the password failed.
    Encryption,
}

} // verus!
