use vstd::prelude::*;

pub mod proc;
pub mod route;
pub mod url;

verus! {

/// Numeric response code carried by a response payload.
pub type ResponseCode = u16;

} // verus!
