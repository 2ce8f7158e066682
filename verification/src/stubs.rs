//! The values the application's server stubs hand out.
//!
//! Each stub returns one constant of a different primitive shape; the
//! application's pages fetch them as asynchronous resources and render
//! whatever arrived. The transport around these values (the server-function
//! plumbing, its error type) belongs to the surrounding application; the
//! values themselves are decided here.

use vstd::prelude::*;

verus! {

/// The unit stub: there is no data, only the fact that the call completed.
pub fn empty_data() {
}

/// The integer stub.
pub fn int_data() -> (r: i32)
    ensures
        r == 1i32,
{
    1
}

/// The character stub.
pub fn char_data() -> (r: char)
    ensures
        r == 'c',
{
    'c'
}

/// The string stub.
pub fn string_data() -> (r: String)
    ensures
        r@ == "Test"@,
{
    "Test".to_owned()
}

/// The boolean stub.
pub fn bool_data() -> (r: bool)
    ensures
        r,
{
    true
}

} // verus!
