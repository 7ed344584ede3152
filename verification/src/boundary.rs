//! The flat codes of the boundary. Only integers cross it, so a typed failure
//! goes over as a fixed code, and its detail stays with the guest.

use crate::error::Error;
use crate::probe::Reply;
use crate::ERROR;
use vstd::prelude::*;

verus! {

/// What goes back in band for a result that is a handle or a length: the
/// number itself, or `ERROR` for any failure.
pub fn status_of(result: Result<i32, Error>) -> (code: i32)
    ensures
        match result {
            Ok(value) => code == value,
            Err(_) => code == ERROR,
        },
{
    match result {
        Ok(value) => value,
        Err(_) => ERROR,
    }
}

/// What goes back in band for a result that is an address: the address
/// itself, or zero, the null address, for any failure.
pub fn address_or_null(result: Result<usize, Error>) -> (address: usize)
    ensures
        match result {
            Ok(found) => address == found,
            Err(_) => address == 0,
        },
{
    match result {
        Ok(found) => found,
        Err(_) => 0,
    }
}

/// The answer to a probe that may have failed before the registry was
/// reached: the reply itself, or `ERROR` with no call into the host.
pub fn reply_of(result: Result<Reply, Error>) -> (reply: Reply)
    ensures
        match result {
            Ok(given) => reply == given,
            Err(_) => reply.status == ERROR && reply.call is None,
        },
{
    match result {
        Ok(given) => given,
        Err(_) => Reply { status: ERROR, call: None },
    }
}

} // verus!
