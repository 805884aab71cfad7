use vstd::prelude::*;

verus! {

/// A filesystem path, carried through the library unread.
#[verifier::external_type_specification]
#[verifier::external_body]
pub struct ExPathBuf(std::path::PathBuf);

/// An I/O error, carried inside a storage error unread.
#[verifier::external_type_specification]
#[verifier::external_body]
pub struct ExIoError(std::io::Error);

/// An error of the `opendal` storage layer, carried inside a storage error unread.
#[verifier::external_type_specification]
#[verifier::external_body]
pub struct ExOpenDalError(opendal::Error);

/// An error of `serde_json`, turned into text before it leaves the library.
#[verifier::external_type_specification]
#[verifier::external_body]
pub struct ExJsonError(serde_json::Error);

} // verus!
