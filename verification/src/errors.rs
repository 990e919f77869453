use vstd::prelude::*;

use crate::kind::DataKind;
use minreq::Error as MinreqError;
use rmp_serde::decode::Error as RmpDecodeError;
use serde_json::Error as JsonError;

verus! {

#[verifier::external_type_specification]
#[verifier::external_body]
pub struct ExIoError(std::io::Error);

#[verifier::external_type_specification]
#[verifier::external_body]
pub struct ExRmpDecodeError(RmpDecodeError);

#[verifier::external_type_specification]
#[verifier::external_body]
pub struct ExJsonError(JsonError);

#[verifier::external_type_specification]
#[verifier::external_body]
pub struct ExMinreqError(MinreqError);

/// Everything that can fail in the store or during bootstrap. The variants
/// stay distinguishable so a caller can tell "dataset not installed"
/// (`Locate`) apart from "dataset installed but corrupt" (`RmpDeserialize`,
/// `JsonDeserialize`) and from plain I/O trouble.
#[derive(Debug)]
pub enum Error {
    /// The platform could not resolve the user's data directory.
    BaseDirs,
    /// A category subdirectory could not be created.
    DirCreate(std::io::Error),
    /// A category subdirectory could not be listed.
    DirRead(std::io::Error),
    /// A resource file could not be read.
    FileRead(std::io::Error),
    /// A fetched file could not be written during bootstrap.
    FileWrite(std::io::Error),
    /// No resource of the given category carries the given name.
    Locate(DataKind, String),
    /// A resource file's bytes do not parse as the binary format.
    RmpDeserialize(RmpDecodeError),
    /// A layout file's text does not parse as JSON.
    JsonDeserialize(JsonError),
    /// A bootstrap listing request failed.
    Download(MinreqError),
}

impl From<MinreqError> for Error {
    fn from(err: MinreqError) -> (r: Error) {
        Error::Download(err)
    }
}

impl vstd::std_specs::convert::FromSpecImpl<MinreqError> for Error {
    open spec fn obeys_from_spec() -> bool {
        true
    }

    open spec fn from_spec(err: MinreqError) -> Error {
        Error::Download(err)
    }
}

} // verus!
