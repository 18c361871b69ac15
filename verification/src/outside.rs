//! Declarations of the outside types that the library carries through unread.

use vstd::prelude::*;

verus! {

/// The error of `procfs`, carried through unread.
#[verifier::external_type_specification]
#[verifier::external_body]
pub struct ExProcError(procfs::ProcError);

/// The I/O error of std, carried through unread.
#[verifier::external_type_specification]
#[verifier::external_body]
pub struct ExIoError(std::io::Error);

} // verus!
