//! What the outcome of a native call means.
//!
//! A native entry point reports success as a flag, or as a handle that is
//! not null. On failure the cause is the thread's last-error code, which has
//! to be read on the same thread right after the call. The functions here
//! turn such an outcome into a typed result; none of them fails on an
//! unexpected code or mask.
use vstd::prelude::*;
use crate::error::{get_error, Error, XmpError};
use crate::flags::decoded;
use crate::flags::prop::PropFlags;

verus! {

/// The error that a last-error code stands for.
pub open spec fn failure(last_error: i32) -> Error {
    Error(XmpError::spec_from_code(last_error as int))
}

/// The result of a call that reports success as a flag and yields `value`.
/// `last_error` counts only when `ok` is false.
pub fn outcome<T>(ok: bool, value: T, last_error: i32) -> (r: Result<T, Error>)
    ensures
        ok ==> r == Ok::<T, Error>(value),
        !ok ==> r == Err::<T, Error>(failure(last_error)),
{
    if ok {
        Ok(value)
    } else {
        Err(get_error(last_error))
    }
}

/// The result of a call that reports success as a flag and yields nothing.
pub fn check(ok: bool, last_error: i32) -> (r: Result<(), Error>)
    ensures
        ok ==> r == Ok::<(), Error>(()),
        !ok ==> r == Err::<(), Error>(failure(last_error)),
{
    outcome(ok, (), last_error)
}

/// The result of a call that reports success as a handle: null means that
/// the call failed.
pub fn handle(address: usize, last_error: i32) -> (r: Result<usize, Error>)
    ensures
        address != 0 ==> r == Ok::<usize, Error>(address),
        address == 0 ==> r == Err::<usize, Error>(failure(last_error)),
{
    outcome(address != 0, address, last_error)
}

/// The result of reading a property: the value on success, and in either
/// case the property's options, decoded from the raw mask that the native
/// side wrote. A mask with a bit that has no name decodes to no options.
pub fn fetched<T>(
    ok: bool,
    value: T,
    raw_flags: u32,
    last_error: i32,
    propsbits: &mut PropFlags,
) -> (r: Result<T, Error>)
    ensures
        *final(propsbits) == PropFlags::spec_decode(raw_flags),
        final(propsbits)@ == decoded(raw_flags, PropFlags::known()),
        ok ==> r == Ok::<T, Error>(value),
        !ok ==> r == Err::<T, Error>(failure(last_error)),
{
    *propsbits = PropFlags::decode(raw_flags);
    outcome(ok, value, last_error)
}

} // verus!
