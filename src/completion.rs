use vstd::prelude::*;

verus! {

/// Turns the status that a device operation reports on completion into a
/// result: zero is success and carries `val`, anything else is the status.
pub fn errno_result<T>(val: T, errno: i32) -> (r: Result<T, i32>)
    ensures
        errno == 0 ==> r == Ok::<T, i32>(val),
        errno != 0 ==> r == Err::<T, i32>(errno),
{
    if errno == 0 {
        Ok(val)
    } else {
        Err(errno)
    }
}

} // verus!
