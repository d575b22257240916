use vstd::prelude::*;

verus! {

/// The error code a native status is surfaced as: the status reinterpreted as
/// a 32-bit signed integer (its low 32 bits).
pub open spec fn status_code(status: isize) -> i32 {
    status as i32
}

/// Bytes all equal to zero, `len` of them.
pub open spec fn zeroed(len: nat) -> Seq<u8> {
    Seq::new(len, |_i: int| 0u8)
}

/// Turns the status returned by a native routine into a result: `0` is
/// success, any other status is passed on unchanged as the error.
pub fn native_status(status: isize) -> (r: Result<(), i32>)
    ensures
        status == 0 ==> r == Ok::<(), i32>(()),
        status != 0 ==> r == Err::<(), i32>(status_code(status)),
{
    if status != 0 {
        Err(#[verifier::truncate] (status as i32))
    } else {
        Ok(())
    }
}

} // verus!
