//! Types of the Windows runtime bindings that the verified code carries.
use vstd::prelude::*;

verus! {

/// The error type of the Windows runtime bindings, carried through opaquely.
#[verifier::external_type_specification]
#[verifier::external_body]
pub struct ExWindowsError(windows_core::Error);

} // verus!
