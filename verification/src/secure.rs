//! How the relay secures its connections.

use std::path::PathBuf;
use vstd::prelude::*;

verus! {

/// `PathBuf` of std: a path in the file system, which is carried and never
/// looked into.
#[verifier::external_type_specification]
#[verifier::external_body]
pub struct ExPathBuf(PathBuf);

/// How the relay secures its connections.
#[derive(Debug)]
pub enum SecurityMode {
    /// With a certificate and a key, each in a file.
    Secure { cert: PathBuf, key: PathBuf },
}

} // verus!
